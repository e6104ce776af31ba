//! Resources: the per-instance views an agent can read, their URIs, and
//! how a URI is read back into the view it names.
use vstd::prelude::*;
use crate::json::{Json, jstr, entry};
use crate::text::{owned, cat, cat3, chars_of, string_of, same, has_prefix};
use crate::server::mcp::str_member;

verus! {

/// The scheme and separator every resource URI starts with.
pub open spec fn scheme() -> Seq<char> {
    "qbittorrent://"@
}

/// What a resource shows.
#[derive(Debug, Clone, Copy, PartialEq, Eq, Structural)]
pub enum ResourceKind {
    Torrents,
    Transfer,
    Categories,
    Properties,
    Files,
    Trackers,
}

/// The last segment of the URI of an instance-wide resource.
pub open spec fn instance_suffix(k: ResourceKind) -> Seq<char> {
    match k {
        ResourceKind::Torrents => "/torrents"@,
        ResourceKind::Transfer => "/transfer"@,
        ResourceKind::Categories => "/categories"@,
        ResourceKind::Properties => "/properties"@,
        ResourceKind::Files => "/files"@,
        ResourceKind::Trackers => "/trackers"@,
    }
}

/// The first position from `from` on that holds a `/`.
pub open spec fn slash_from(t: Seq<char>, from: int) -> Option<int> {
    if exists|k: int| from <= k < t.len() && t[k] == '/' {
        Some(choose|k: int| from <= k < t.len() && t[k] == '/' && forall|j: int| from <= j < k ==> t[j] != '/')
    } else {
        None
    }
}

/// A match of `qbittorrent://([^/]+)<suffix>` starting at `p`: the captured segment.
#[verifier::opaque]
pub open spec fn one_segment_at(t: Seq<char>, p: int, suffix: Seq<char>) -> Option<Seq<char>> {
    let a = p + scheme().len();
    if 0 <= p <= t.len() && has_prefix(t.skip(p), scheme()) {
        match slash_from(t, a) {
            Some(q) => if q > a && has_prefix(t.skip(q), suffix) { Some(t.subrange(a, q)) } else { None },
            None => None,
        }
    } else {
        None
    }
}

/// A match of `qbittorrent://([^/]+)/torrent/([^/]+)<suffix>` starting at
/// `p`: the two captured segments.
#[verifier::opaque]
pub open spec fn two_segments_at(t: Seq<char>, p: int, suffix: Seq<char>) -> Option<(Seq<char>, Seq<char>)> {
    let a = p + scheme().len();
    if 0 <= p <= t.len() && has_prefix(t.skip(p), scheme()) {
        match slash_from(t, a) {
            Some(q) => if q > a && has_prefix(t.skip(q), "/torrent/"@) {
                let b = q + 9;
                match slash_from(t, b) {
                    Some(q2) => if q2 > b && has_prefix(t.skip(q2), suffix) {
                        Some((t.subrange(a, q), t.subrange(b, q2)))
                    } else {
                        None
                    },
                    None => None,
                }
            } else {
                None
            },
            None => None,
        }
    } else {
        None
    }
}

/// The leftmost match of `qbittorrent://([^/]+)<suffix>` anywhere in `t`.
pub open spec fn one_segment(t: Seq<char>, suffix: Seq<char>) -> Option<Seq<char>> {
    if exists|p: int| one_segment_at(t, p, suffix) is Some {
        one_segment_at(t, choose|p: int| one_segment_at(t, p, suffix) is Some
            && forall|o: int| o < p ==> one_segment_at(t, o, suffix) is None, suffix)
    } else {
        None
    }
}

/// The leftmost match of `qbittorrent://([^/]+)/torrent/([^/]+)<suffix>` anywhere in `t`.
pub open spec fn two_segments(t: Seq<char>, suffix: Seq<char>) -> Option<(Seq<char>, Seq<char>)> {
    if exists|p: int| two_segments_at(t, p, suffix) is Some {
        two_segments_at(t, choose|p: int| two_segments_at(t, p, suffix) is Some
            && forall|o: int| o < p ==> two_segments_at(t, o, suffix) is None, suffix)
    } else {
        None
    }
}

/// The resource a URI names: the instance (none for the older URIs without
/// one, which read the default instance) and, for a torrent, its hash.
#[derive(Debug)]
pub struct ResourceRoute {
    pub kind: ResourceKind,
    pub instance: Option<String>,
    pub hash: Option<String>,
}

/// What reading `uri` gives: the first of the instance-wide views, then of
/// the torrent views, whose pattern matches; else one of the older URIs
/// `qbittorrent://torrents`, `qbittorrent://transfer` and
/// `qbittorrent://categories`; else no resource.
pub open spec fn resource_of(uri: Seq<char>) -> Option<(ResourceKind, Option<Seq<char>>, Option<Seq<char>>)> {
    if one_segment(uri, "/torrents"@) is Some {
        Some((ResourceKind::Torrents, one_segment(uri, "/torrents"@), None))
    } else if one_segment(uri, "/transfer"@) is Some {
        Some((ResourceKind::Transfer, one_segment(uri, "/transfer"@), None))
    } else if one_segment(uri, "/categories"@) is Some {
        Some((ResourceKind::Categories, one_segment(uri, "/categories"@), None))
    } else if two_segments(uri, "/properties"@) is Some {
        let (i, h) = two_segments(uri, "/properties"@)->0;
        Some((ResourceKind::Properties, Some(i), Some(h)))
    } else if two_segments(uri, "/files"@) is Some {
        let (i, h) = two_segments(uri, "/files"@)->0;
        Some((ResourceKind::Files, Some(i), Some(h)))
    } else if two_segments(uri, "/trackers"@) is Some {
        let (i, h) = two_segments(uri, "/trackers"@)->0;
        Some((ResourceKind::Trackers, Some(i), Some(h)))
    } else if uri == "qbittorrent://torrents"@ {
        Some((ResourceKind::Torrents, None, None))
    } else if uri == "qbittorrent://transfer"@ {
        Some((ResourceKind::Transfer, None, None))
    } else if uri == "qbittorrent://categories"@ {
        Some((ResourceKind::Categories, None, None))
    } else {
        None
    }
}

fn lit_at(t: &Vec<char>, p: usize, lit: &str) -> (r: bool)
    requires
        p <= t.len(),
    ensures
        r == has_prefix(t@.skip(p as int), lit@),
{
    let l = chars_of(lit);
    if l.len() > t.len() - p {
        return false;
    }
    let mut i: usize = 0;
    while i < l.len()
        invariant
            p + l.len() <= t.len(),
            i <= l.len(),
            l@ == lit@,
            forall|j: int| 0 <= j < i ==> t@[p + j] == l@[j],
        decreases l.len() - i,
    {
        if t[p + i] != l[i] {
            assert(t@.skip(p as int).subrange(0, l@.len() as int)[i as int] != l@[i as int]);
            return false;
        }
        i = i + 1;
    }
    assert(t@.skip(p as int).subrange(0, l@.len() as int) =~= l@);
    true
}

fn slash_after(t: &Vec<char>, from: usize) -> (r: Option<usize>)
    ensures
        match r {
            Some(k) => slash_from(t@, from as int) == Some(k as int) && from <= k < t.len(),
            None => slash_from(t@, from as int) is None,
        },
{
    let mut k = from;
    while k < t.len()
        invariant
            from <= k,
            forall|j: int| from <= j < k && j < t.len() ==> t@[j] != '/',
        decreases t.len() - k,
    {
        if t[k] == '/' {
            proof {
                let c = choose|c: int| from <= c < t@.len() && t@[c] == '/' && forall|j: int| from <= j < c ==> t@[j] != '/';
                assert(from <= c < t@.len() && t@[c] == '/' && forall|j: int| from <= j < c ==> t@[j] != '/');
                if c < k {
                    assert(t@[c] != '/');
                }
                if k < c {
                    assert(t@[k as int] != '/');
                }
            }
            return Some(k);
        }
        k = k + 1;
    }
    None
}

fn segment(t: &Vec<char>, from: usize, to: usize) -> (r: String)
    requires
        from <= to <= t.len(),
    ensures
        r@ == t@.subrange(from as int, to as int),
{
    let mut cs: Vec<char> = Vec::new();
    let mut i = from;
    while i < to
        invariant
            from <= i <= to <= t.len(),
            cs@ == t@.subrange(from as int, i as int),
        decreases to - i,
    {
        cs.push(t[i]);
        i = i + 1;
        assert(cs@ =~= t@.subrange(from as int, i as int));
    }
    string_of(&cs)
}

fn one_at(t: &Vec<char>, p: usize, suffix: &str) -> (r: Option<String>)
    requires
        p <= t.len(),
    ensures
        crate::cli::opt_view(r) == one_segment_at(t@, p as int, suffix@),
{
    proof {
        reveal_strlit("qbittorrent://");
        reveal(one_segment_at);
    }
    if !lit_at(t, p, "qbittorrent://") {
        return None;
    }
    let a = p + 14;
    match slash_after(t, a) {
        Some(q) => {
            if q > a && lit_at(t, q, suffix) {
                Some(segment(t, a, q))
            } else {
                None
            }
        },
        None => None,
    }
}

fn two_at(t: &Vec<char>, p: usize, suffix: &str) -> (r: Option<(String, String)>)
    requires
        p <= t.len(),
    ensures
        match r {
            Some((i, h)) => two_segments_at(t@, p as int, suffix@) == Some((i@, h@)),
            None => two_segments_at(t@, p as int, suffix@) is None,
        },
{
    proof {
        reveal_strlit("qbittorrent://");
        reveal_strlit("/torrent/");
        reveal(two_segments_at);
    }
    if !lit_at(t, p, "qbittorrent://") {
        return None;
    }
    let a = p + 14;
    match slash_after(t, a) {
        Some(q) => {
            if q > a && lit_at(t, q, "/torrent/") {
                let b = q + 9;
                match slash_after(t, b) {
                    Some(q2) => {
                        if q2 > b && lit_at(t, q2, suffix) {
                            Some((segment(t, a, q), segment(t, b, q2)))
                        } else {
                            None
                        }
                    },
                    None => None,
                }
            } else {
                None
            }
        },
        None => None,
    }
}

fn find_one(t: &Vec<char>, suffix: &str) -> (r: Option<String>)
    ensures
        crate::cli::opt_view(r) == one_segment(t@, suffix@),
{
    let mut p: usize = 0;
    while p < t.len()
        invariant
            p <= t.len(),
            forall|o: int| 0 <= o < p ==> one_segment_at(t@, o, suffix@) is None,
        decreases t.len() - p,
    {
        match one_at(t, p, suffix) {
            Some(s) => {
                proof {
                    let c = choose|c: int| one_segment_at(t@, c, suffix@) is Some
                        && forall|o: int| o < c ==> one_segment_at(t@, o, suffix@) is None;
                    assert(one_segment_at(t@, p as int, suffix@) is Some);
                    assert forall|o: int| o < p implies one_segment_at(t@, o, suffix@) is None by {
                        if o < 0 {
                            reveal(one_segment_at);
                        }
                    }
                    if c < p {
                        assert(one_segment_at(t@, c, suffix@) is None);
                    }
                    if p < c {
                        assert(one_segment_at(t@, p as int, suffix@) is None);
                    }
                }
                return Some(s);
            },
            None => {},
        }
        p = p + 1;
    }
    assert forall|o: int| one_segment_at(t@, o, suffix@) is None by {
        reveal(one_segment_at);
        reveal_strlit("qbittorrent://");
        if o >= t@.len() && 0 <= o <= t@.len() {
            assert(t@.skip(o).len() == 0);
        }
    }
    None
}

fn find_two(t: &Vec<char>, suffix: &str) -> (r: Option<(String, String)>)
    ensures
        match r {
            Some((i, h)) => two_segments(t@, suffix@) == Some((i@, h@)),
            None => two_segments(t@, suffix@) is None,
        },
{
    let mut p: usize = 0;
    while p < t.len()
        invariant
            p <= t.len(),
            forall|o: int| 0 <= o < p ==> two_segments_at(t@, o, suffix@) is None,
        decreases t.len() - p,
    {
        match two_at(t, p, suffix) {
            Some(s) => {
                proof {
                    let c = choose|c: int| two_segments_at(t@, c, suffix@) is Some
                        && forall|o: int| o < c ==> two_segments_at(t@, o, suffix@) is None;
                    assert(two_segments_at(t@, p as int, suffix@) is Some);
                    assert forall|o: int| o < p implies two_segments_at(t@, o, suffix@) is None by {
                        if o < 0 {
                            reveal(two_segments_at);
                        }
                    }
                    if c < p {
                        assert(two_segments_at(t@, c, suffix@) is None);
                    }
                    if p < c {
                        assert(two_segments_at(t@, p as int, suffix@) is None);
                    }
                }
                return Some(s);
            },
            None => {},
        }
        p = p + 1;
    }
    assert forall|o: int| two_segments_at(t@, o, suffix@) is None by {
        reveal(two_segments_at);
        reveal_strlit("qbittorrent://");
        if o >= t@.len() && 0 <= o <= t@.len() {
            assert(t@.skip(o).len() == 0);
        }
    }
    None
}

/// Reads a resource URI (see `resource_of`).
pub fn route_resource(uri: &str) -> (r: Result<ResourceRoute, String>)
    ensures
        match r {
            Ok(route) => resource_of(uri@) == Some((route.kind, crate::cli::opt_view(route.instance), crate::cli::opt_view(route.hash))),
            Err(m) => resource_of(uri@) is None && m@ == "Resource not found: "@ + uri@,
        },
{
    let t = chars_of(uri);
    match find_one(&t, "/torrents") {
        Some(i) => { return Ok(ResourceRoute { kind: ResourceKind::Torrents, instance: Some(i), hash: None }); },
        None => {},
    }
    match find_one(&t, "/transfer") {
        Some(i) => { return Ok(ResourceRoute { kind: ResourceKind::Transfer, instance: Some(i), hash: None }); },
        None => {},
    }
    match find_one(&t, "/categories") {
        Some(i) => { return Ok(ResourceRoute { kind: ResourceKind::Categories, instance: Some(i), hash: None }); },
        None => {},
    }
    match find_two(&t, "/properties") {
        Some((i, h)) => { return Ok(ResourceRoute { kind: ResourceKind::Properties, instance: Some(i), hash: Some(h) }); },
        None => {},
    }
    match find_two(&t, "/files") {
        Some((i, h)) => { return Ok(ResourceRoute { kind: ResourceKind::Files, instance: Some(i), hash: Some(h) }); },
        None => {},
    }
    match find_two(&t, "/trackers") {
        Some((i, h)) => { return Ok(ResourceRoute { kind: ResourceKind::Trackers, instance: Some(i), hash: Some(h) }); },
        None => {},
    }
    if same(uri, "qbittorrent://torrents") {
        Ok(ResourceRoute { kind: ResourceKind::Torrents, instance: None, hash: None })
    } else if same(uri, "qbittorrent://transfer") {
        Ok(ResourceRoute { kind: ResourceKind::Transfer, instance: None, hash: None })
    } else if same(uri, "qbittorrent://categories") {
        Ok(ResourceRoute { kind: ResourceKind::Categories, instance: None, hash: None })
    } else {
        Err(cat("Resource not found: ", uri))
    }
}

/// The URI of an instance-wide resource.
pub open spec fn instance_uri(instance: Seq<char>, k: ResourceKind) -> Seq<char> {
    scheme() + instance + instance_suffix(k)
}

proof fn lemma_resource_keys()
    ensures
        "uri"@ != "name"@,
        "uri"@ != "description"@,
        "uri"@ != "mimeType"@,
        "uriTemplate"@ != "name"@,
        "uriTemplate"@ != "description"@,
        "uriTemplate"@ != "mimeType"@,
        "name"@ != "description"@,
        "name"@ != "mimeType"@,
        "description"@ != "mimeType"@,
{
    reveal_strlit("uri");
    reveal_strlit("uriTemplate");
    reveal_strlit("name");
    reveal_strlit("description");
    reveal_strlit("mimeType");
    assert("uri"@[0] != "name"@[0]);
    assert("uri"@[0] != "description"@[0]);
    assert("uri"@[0] != "mimeType"@[0]);
    assert("uriTemplate"@[0] != "name"@[0]);
    assert("uriTemplate"@[0] != "description"@[0]);
    assert("uriTemplate"@[0] != "mimeType"@[0]);
    assert("name"@[0] != "description"@[0]);
    assert("name"@[0] != "mimeType"@[0]);
    assert("description"@[0] != "mimeType"@[0]);
}

fn object4(k1: &str, v1: Json, k2: &str, v2: Json, k3: &str, v3: Json, k4: &str, v4: Json) -> (r: Json)
    requires
        k1@ != k2@ && k1@ != k3@ && k1@ != k4@ && k2@ != k3@ && k2@ != k4@ && k3@ != k4@,
    ensures
        r.member(k1@) == Some(v1),
        r.member(k2@) == Some(v2),
        r.member(k3@) == Some(v3),
        r.member(k4@) == Some(v4),
{
    proof {
        reveal_with_fuel(crate::json::entry_value, 5);
    }
    let mut e: Vec<(String, Json)> = Vec::new();
    e.push(entry(k1, v1));
    e.push(entry(k2, v2));
    e.push(entry(k3, v3));
    e.push(entry(k4, v4));
    Json::Obj(e)
}

/// The name of an instance-wide resource, before the instance's name.
pub open spec fn resource_title(k: ResourceKind) -> Seq<char> {
    match k {
        ResourceKind::Torrents => "Torrent List"@,
        ResourceKind::Transfer => "Global Transfer Info"@,
        _ => "Categories"@,
    }
}

/// The description of an instance-wide resource, before the instance's name.
pub open spec fn resource_blurb(k: ResourceKind) -> Seq<char> {
    match k {
        ResourceKind::Torrents => "A live list of all torrents on instance: "@,
        ResourceKind::Transfer => "Current speeds and limits on instance: "@,
        _ => "All defined categories on instance: "@,
    }
}

/// Whether `r` lists the resource `k` of instance `name`: its URI, its
/// name and description with the instance's name, and JSON as its type.
pub open spec fn lists_instance_resource(r: Json, name: Seq<char>, k: ResourceKind) -> bool {
    &&& str_member(r, "uri"@) == Some(instance_uri(name, k))
    &&& str_member(r, "name"@) == Some(resource_title(k) + " ("@ + name + ")"@)
    &&& str_member(r, "description"@) == Some(resource_blurb(k) + name)
    &&& str_member(r, "mimeType"@) == Some("application/json"@)
}

/// Whether `r` lists a template of torrent resources.
pub open spec fn lists_template(r: Json, template: Seq<char>, title: Seq<char>, description: Seq<char>) -> bool {
    &&& str_member(r, "uriTemplate"@) == Some(template)
    &&& str_member(r, "name"@) == Some(title)
    &&& str_member(r, "description"@) == Some(description)
    &&& str_member(r, "mimeType"@) == Some("application/json"@)
}

fn instance_resource(name: &str, k: ResourceKind) -> (r: Json)
    requires
        k == ResourceKind::Torrents || k == ResourceKind::Transfer || k == ResourceKind::Categories,
    ensures
        lists_instance_resource(r, name@, k),
{
    proof {
        reveal_strlit("qbittorrent://");
        lemma_resource_keys();
    }
    let (suffix, title, blurb) = match k {
        ResourceKind::Torrents => ("/torrents", "Torrent List", "A live list of all torrents on instance: "),
        ResourceKind::Transfer => ("/transfer", "Global Transfer Info", "Current speeds and limits on instance: "),
        _ => ("/categories", "Categories", "All defined categories on instance: "),
    };
    let uri = cat3("qbittorrent://", name, suffix);
    let title_text = cat3(title, " (", name);
    let label = cat(title_text.as_str(), ")");
    let desc = cat(blurb, name);
    object4("uri", Json::Str(uri), "name", Json::Str(label), "description", Json::Str(desc), "mimeType", jstr("application/json"))
}

fn template_resource(template: &str, title: &str, description: &str) -> (r: Json)
    ensures
        lists_template(r, template@, title@, description@),
{
    proof {
        lemma_resource_keys();
    }
    object4("uriTemplate", jstr(template), "name", jstr(title), "description", jstr(description), "mimeType", jstr("application/json"))
}

/// Whether `r` lists the resources of the instances: for each instance,
/// in order, its torrent list, its transfer information and its categories;
/// then the templates of the properties, files and trackers of a torrent.
pub open spec fn resources_listed(r: Seq<Json>, instances: Seq<String>) -> bool {
    &&& r.len() == 3 * instances.len() + 3
    &&& forall|i: int| 0 <= i < instances.len() ==> {
        &&& lists_instance_resource(#[trigger] r[3 * i], instances[i]@, ResourceKind::Torrents)
        &&& lists_instance_resource(r[3 * i + 1], instances[i]@, ResourceKind::Transfer)
        &&& lists_instance_resource(r[3 * i + 2], instances[i]@, ResourceKind::Categories)
    }
    &&& lists_template(r[3 * instances.len() as int], "qbittorrent://{instance}/torrent/{hash}/properties"@,
        "Torrent Properties"@, "Detailed properties and metadata for a specific torrent"@)
    &&& lists_template(r[3 * instances.len() as int + 1], "qbittorrent://{instance}/torrent/{hash}/files"@,
        "Torrent Files"@, "List of files and their progress within a specific torrent"@)
    &&& lists_template(r[3 * instances.len() as int + 2], "qbittorrent://{instance}/torrent/{hash}/trackers"@,
        "Torrent Trackers"@, "Current trackers and their status for a specific torrent"@)
}

/// The resources of the instances (see `resources_listed`).
pub fn resource_definitions(instances: &Vec<String>) -> (r: Vec<Json>)
    ensures
        resources_listed(r@, instances@),
{
    let mut r: Vec<Json> = Vec::new();
    let mut i: usize = 0;
    while i < instances.len()
        invariant
            i <= instances.len(),
            r@.len() == 3 * i,
            forall|k: int| 0 <= k < i ==> {
                &&& lists_instance_resource(#[trigger] r@[3 * k], instances@[k]@, ResourceKind::Torrents)
                &&& lists_instance_resource(r@[3 * k + 1], instances@[k]@, ResourceKind::Transfer)
                &&& lists_instance_resource(r@[3 * k + 2], instances@[k]@, ResourceKind::Categories)
            },
        decreases instances.len() - i,
    {
        let name = instances[i].as_str();
        let ghost before = r@;
        r.push(instance_resource(name, ResourceKind::Torrents));
        r.push(instance_resource(name, ResourceKind::Transfer));
        r.push(instance_resource(name, ResourceKind::Categories));
        proof {
            assert forall|k: int| 0 <= k < i + 1 implies {
                &&& lists_instance_resource(#[trigger] r@[3 * k], instances@[k]@, ResourceKind::Torrents)
                &&& lists_instance_resource(r@[3 * k + 1], instances@[k]@, ResourceKind::Transfer)
                &&& lists_instance_resource(r@[3 * k + 2], instances@[k]@, ResourceKind::Categories)
            } by {
                if k < i {
                    assert(r@[3 * k] == before[3 * k]);
                    assert(r@[3 * k + 1] == before[3 * k + 1]);
                    assert(r@[3 * k + 2] == before[3 * k + 2]);
                }
            }
        }
        i = i + 1;
    }
    r.push(template_resource("qbittorrent://{instance}/torrent/{hash}/properties", "Torrent Properties", "Detailed properties and metadata for a specific torrent"));
    r.push(template_resource("qbittorrent://{instance}/torrent/{hash}/files", "Torrent Files", "List of files and their progress within a specific torrent"));
    r.push(template_resource("qbittorrent://{instance}/torrent/{hash}/trackers", "Torrent Trackers", "Current trackers and their status for a specific torrent"));
    r
}

/// The reply to a resource read: the URI, JSON as the MIME type, and the text.
pub fn resource_contents(uri: &str, text: String) -> (r: Json)
    ensures
        r matches Json::Obj(e) && e@.len() == 1 && e@[0].0@ == "contents"@
            && (e@[0].1 matches Json::Arr(items) && items@.len() == 1
                && str_member(items@[0], "uri"@) == Some(uri@)
                && str_member(items@[0], "mimeType"@) == Some("application/json"@)
                && str_member(items@[0], "text"@) == Some(text@)),
{
    proof {
        reveal_strlit("uri");
        reveal_strlit("mimeType");
        reveal_strlit("text");
        assert("uri"@[0] != "mimeType"@[0]);
        assert("uri"@[0] != "text"@[0]);
        assert("mimeType"@[0] != "text"@[0]);
        reveal_with_fuel(crate::json::entry_value, 4);
    }
    let mut e: Vec<(String, Json)> = Vec::new();
    e.push(entry("uri", jstr(uri)));
    e.push(entry("mimeType", jstr("application/json")));
    e.push(entry("text", Json::Str(text)));
    let mut items: Vec<Json> = Vec::new();
    items.push(Json::Obj(e));
    let mut outer: Vec<(String, Json)> = Vec::new();
    outer.push(entry("contents", Json::Arr(items)));
    Json::Obj(outer)
}

/// Whether `name` can stand as the instance segment of a URI: not empty and
/// without `/`.
pub open spec fn segment_name(name: Seq<char>) -> bool {
    name.len() > 0 && forall|i: int| 0 <= i < name.len() ==> name[i] != '/'
}

/// Whether a resource is one of an instance as a whole (listed by URI, not
/// by template).
pub open spec fn instance_wide(k: ResourceKind) -> bool {
    k == ResourceKind::Torrents || k == ResourceKind::Transfer || k == ResourceKind::Categories
}

proof fn lemma_uri_chars(name: Seq<char>, k: ResourceKind)
    requires
        segment_name(name),
        instance_wide(k),
    ensures
        instance_uri(name, k).len() == 14 + name.len() + instance_suffix(k).len(),
        forall|i: int| 0 <= i < 14 ==> instance_uri(name, k)[i] == scheme()[i],
        forall|i: int| 14 <= i < 14 + name.len() ==> instance_uri(name, k)[i] == name[i - 14],
        forall|i: int| 14 + name.len() <= i < instance_uri(name, k).len() ==> instance_uri(name, k)[i] == instance_suffix(k)[i - 14 - name.len()],
        scheme().len() == 14,
        scheme()[12] == '/' && scheme()[13] == '/',
        forall|i: int| 0 <= i < 12 ==> scheme()[i] != '/',
        instance_suffix(k)[0] == '/',
        forall|i: int| 1 <= i < instance_suffix(k).len() ==> instance_suffix(k)[i] != '/',
        instance_suffix(k).len() >= 9,
{
    reveal_strlit("qbittorrent://");
    reveal_strlit("/torrents");
    reveal_strlit("/transfer");
    reveal_strlit("/categories");
}

proof fn lemma_slash_after_name(name: Seq<char>, k: ResourceKind)
    requires
        segment_name(name),
        instance_wide(k),
    ensures
        slash_from(instance_uri(name, k), 14) == Some(14 + name.len() as int),
{
    lemma_uri_chars(name, k);
    let t = instance_uri(name, k);
    let q: int = 14 + name.len() as int;
    assert(t[q] == '/');
    assert(exists|j: int| 14 <= j < t.len() && t[j] == '/');
    let c = choose|j: int| 14 <= j < t.len() && t[j] == '/' && forall|m: int| 14 <= m < j ==> t[m] != '/';
    assert(14 <= q < t.len() && t[q] == '/' && forall|m: int| 14 <= m < q ==> t[m] != '/') by {
        assert forall|m: int| 14 <= m < q implies t[m] != '/' by {
            assert(t[m] == name[m - 14]);
        }
    }
    if c < q {
        assert(t[c] == name[c - 14]);
    }
    if c > q {
        assert(t[q] != '/');
    }
}

proof fn lemma_match_only_at_start(name: Seq<char>, k: ResourceKind, suffix: Seq<char>, p: int)
    requires
        segment_name(name),
        instance_wide(k),
        p != 0,
    ensures
        one_segment_at(instance_uri(name, k), p, suffix) is None,
{
    reveal(one_segment_at);
    lemma_uri_chars(name, k);
    let t = instance_uri(name, k);
    if 0 < p <= t.len() && has_prefix(t.skip(p), scheme()) {
        assert(t.skip(p).subrange(0, 14)[12] == scheme()[12]);
        assert(t.skip(p).subrange(0, 14)[13] == scheme()[13]);
        assert(t[p + 12] == '/');
        assert(t[p + 13] == '/');
        let a = p + 12;
        if a < 12 {
            assert(t[a] == scheme()[a]);
        } else if a < 14 {
        } else if a < 14 + name.len() {
            assert(t[a] == name[a - 14]);
        } else if a == 14 + name.len() {
            assert(t[a + 1] == instance_suffix(k)[1]);
        } else {
            assert(t[a] == instance_suffix(k)[a - 14 - name.len()]);
        }
    }
}

proof fn lemma_match_at_start(name: Seq<char>, k: ResourceKind, suffix: Seq<char>)
    requires
        segment_name(name),
        instance_wide(k),
        instance_wide_suffix(suffix),
    ensures
        one_segment_at(instance_uri(name, k), 0, suffix) == if suffix == instance_suffix(k) { Some(name) } else { None::<Seq<char>> },
{
    reveal(one_segment_at);
    lemma_uri_chars(name, k);
    lemma_slash_after_name(name, k);
    reveal_strlit("/torrents");
    reveal_strlit("/transfer");
    reveal_strlit("/categories");
    let t = instance_uri(name, k);
    let q: int = 14 + name.len() as int;
    assert(t.skip(0).subrange(0, 14) =~= scheme());
    assert(t.skip(q) =~= instance_suffix(k));
    assert(t.subrange(14, q) =~= name);
    assert(has_prefix(t.skip(0), scheme()));
    if suffix == instance_suffix(k) {
        assert(t.skip(q).subrange(0, suffix.len() as int) =~= suffix);
        assert(has_prefix(t.skip(q), suffix));
    } else {
        let s = instance_suffix(k);
        if has_prefix(t.skip(q), suffix) {
            assert(s.subrange(0, suffix.len() as int) == suffix);
            if suffix.len() == s.len() {
                assert(s.subrange(0, suffix.len() as int) =~= s);
            } else {
                assert(s[1] == suffix[1]);
                assert(s[2] == suffix[2]);
            }
        }
        assert(!has_prefix(t.skip(q), suffix));
    }
}

/// Whether `suffix` ends the URI of an instance-wide resource.
pub open spec fn instance_wide_suffix(suffix: Seq<char>) -> bool {
    suffix == "/torrents"@ || suffix == "/transfer"@ || suffix == "/categories"@
}

proof fn lemma_leftmost(name: Seq<char>, k: ResourceKind, suffix: Seq<char>)
    requires
        segment_name(name),
        instance_wide(k),
        instance_wide_suffix(suffix),
    ensures
        one_segment(instance_uri(name, k), suffix) == if suffix == instance_suffix(k) { Some(name) } else { None::<Seq<char>> },
{
    let t = instance_uri(name, k);
    lemma_match_at_start(name, k, suffix);
    if suffix == instance_suffix(k) {
        assert(one_segment_at(t, 0, suffix) is Some);
        let c = choose|p: int| one_segment_at(t, p, suffix) is Some && forall|o: int| o < p ==> one_segment_at(t, o, suffix) is None;
        assert(one_segment_at(t, 0, suffix) is Some && forall|o: int| o < 0 ==> one_segment_at(t, o, suffix) is None) by {
            assert forall|o: int| o < 0 implies one_segment_at(t, o, suffix) is None by {
                lemma_match_only_at_start(name, k, suffix, o);
            }
        }
        if c != 0 {
            lemma_match_only_at_start(name, k, suffix, c);
        }
    } else {
        assert forall|p: int| !(one_segment_at(t, p, suffix) is Some) by {
            if p != 0 {
                lemma_match_only_at_start(name, k, suffix, p);
            }
        }
    }
}

/// Reading the URI of a listed instance-wide resource gives that resource
/// of that instance back, for an instance name that can stand in a URI.
pub proof fn listed_resources_read_back(name: Seq<char>, k: ResourceKind)
    requires
        segment_name(name),
        instance_wide(k),
    ensures
        resource_of(instance_uri(name, k)) == Some((k, Some(name), None::<Seq<char>>)),
{
    lemma_leftmost(name, k, "/torrents"@);
    lemma_leftmost(name, k, "/transfer"@);
    lemma_leftmost(name, k, "/categories"@);
    reveal_strlit("/torrents");
    reveal_strlit("/transfer");
    reveal_strlit("/categories");
    assert("/torrents"@[2] != "/transfer"@[2]);
    assert("/torrents"@[1] != "/categories"@[1]);
    assert("/transfer"@[1] != "/categories"@[1]);
}

/// Whether a resource is one of a single torrent (listed by template).
pub open spec fn torrent_wide(k: ResourceKind) -> bool {
    k == ResourceKind::Properties || k == ResourceKind::Files || k == ResourceKind::Trackers
}

/// The URI of a torrent's resource, as its template spells it.
pub open spec fn torrent_uri(instance: Seq<char>, hash: Seq<char>, k: ResourceKind) -> Seq<char> {
    scheme() + instance + "/torrent/"@ + hash + instance_suffix(k)
}

proof fn lemma_torrent_uri_chars(name: Seq<char>, hash: Seq<char>, k: ResourceKind)
    requires
        segment_name(name),
        segment_name(hash),
        torrent_wide(k),
    ensures
        ({
            let t = torrent_uri(name, hash, k);
            let q = 14 + name.len();
            let b = q + 9;
            &&& t.len() == b + hash.len() + instance_suffix(k).len()
            &&& forall|i: int| 0 <= i < 14 ==> t[i] == scheme()[i]
            &&& forall|i: int| 14 <= i < q ==> t[i] == name[i - 14]
            &&& forall|i: int| q <= i < b ==> t[i] == "/torrent/"@[i - q]
            &&& forall|i: int| b <= i < b + hash.len() ==> t[i] == hash[i - b]
            &&& forall|i: int| b + hash.len() <= i < t.len() ==> t[i] == instance_suffix(k)[i - b - hash.len()]
        }),
        scheme().len() == 14,
        scheme()[12] == '/' && scheme()[13] == '/',
        forall|i: int| 0 <= i < 12 ==> scheme()[i] != '/',
        "/torrent/"@.len() == 9,
        "/torrent/"@[0] == '/' && "/torrent/"@[8] == '/',
        forall|i: int| 1 <= i < 8 ==> "/torrent/"@[i] != '/',
        instance_suffix(k)[0] == '/',
        forall|i: int| 1 <= i < instance_suffix(k).len() ==> instance_suffix(k)[i] != '/',
        instance_suffix(k).len() >= 6,
{
    reveal_strlit("qbittorrent://");
    reveal_strlit("/torrent/");
    reveal_strlit("/properties");
    reveal_strlit("/files");
    reveal_strlit("/trackers");
}

proof fn lemma_torrent_uri_slashes(name: Seq<char>, hash: Seq<char>, k: ResourceKind)
    requires
        segment_name(name),
        segment_name(hash),
        torrent_wide(k),
    ensures
        slash_from(torrent_uri(name, hash, k), 14) == Some(14 + name.len() as int),
        slash_from(torrent_uri(name, hash, k), 23 + name.len() as int) == Some(23 + name.len() + hash.len() as int),
        forall|j: int| 0 <= j && j + 1 < torrent_uri(name, hash, k).len()
            && #[trigger] torrent_uri(name, hash, k)[j] == '/' && torrent_uri(name, hash, k)[j + 1] == '/' ==> j == 12,
{
    lemma_torrent_uri_chars(name, hash, k);
    let t = torrent_uri(name, hash, k);
    let q: int = 14 + name.len() as int;
    let b: int = q + 9;
    let e: int = b + hash.len() as int;
    assert(t[q] == '/');
    assert(t[e] == '/');
    assert(exists|j: int| 14 <= j < t.len() && t[j] == '/');
    let c = choose|j: int| 14 <= j < t.len() && t[j] == '/' && forall|m: int| 14 <= m < j ==> t[m] != '/';
    assert(14 <= q < t.len() && t[q] == '/' && forall|m: int| 14 <= m < q ==> t[m] != '/') by {
        assert forall|m: int| 14 <= m < q implies t[m] != '/' by {
            assert(t[m] == name[m - 14]);
        }
    }
    if c < q {
        assert(t[c] == name[c - 14]);
    }
    if c > q {
        assert(t[q] != '/');
    }
    assert(exists|j: int| b <= j < t.len() && t[j] == '/');
    let c2 = choose|j: int| b <= j < t.len() && t[j] == '/' && forall|m: int| b <= m < j ==> t[m] != '/';
    assert(b <= e < t.len() && t[e] == '/' && forall|m: int| b <= m < e ==> t[m] != '/') by {
        assert forall|m: int| b <= m < e implies t[m] != '/' by {
            assert(t[m] == hash[m - b]);
        }
    }
    if c2 < e {
        assert(t[c2] == hash[c2 - b]);
    }
    if c2 > e {
        assert(t[e] != '/');
    }
    assert forall|j: int| 0 <= j && j + 1 < t.len() && #[trigger] t[j] == '/' && t[j + 1] == '/' implies j == 12 by {
        if j < 12 {
            assert(t[j] == scheme()[j]);
        } else if j == 13 {
            if name.len() > 0 {
                assert(t[j + 1] == name[0]);
            }
        } else if 14 <= j < q {
            assert(t[j] == name[j - 14]);
        } else if j == q {
            assert(t[j + 1] == "/torrent/"@[1]);
        } else if q < j < b - 1 {
            assert(t[j] == "/torrent/"@[j - q]);
        } else if j == b - 1 {
            assert(t[j + 1] == hash[0]);
        } else if b <= j < e {
            assert(t[j] == hash[j - b]);
        } else if j == e {
            assert(t[j + 1] == instance_suffix(k)[1]);
        } else if j > e {
            assert(t[j] == instance_suffix(k)[j - e]);
        }
    }
}

proof fn lemma_torrent_uri_no_other_start(name: Seq<char>, hash: Seq<char>, k: ResourceKind, suffix: Seq<char>, p: int)
    requires
        segment_name(name),
        segment_name(hash),
        torrent_wide(k),
        p != 0,
    ensures
        one_segment_at(torrent_uri(name, hash, k), p, suffix) is None,
        two_segments_at(torrent_uri(name, hash, k), p, suffix) is None,
{
    reveal(one_segment_at);
    reveal(two_segments_at);
    lemma_torrent_uri_chars(name, hash, k);
    lemma_torrent_uri_slashes(name, hash, k);
    let t = torrent_uri(name, hash, k);
    if 0 < p <= t.len() && has_prefix(t.skip(p), scheme()) {
        assert(t.skip(p).subrange(0, 14)[12] == scheme()[12]);
        assert(t.skip(p).subrange(0, 14)[13] == scheme()[13]);
        assert(t[p + 12] == '/');
        assert(t[p + 13] == '/');
    }
}

proof fn lemma_torrent_uri_not_instance_wide(name: Seq<char>, hash: Seq<char>, k: ResourceKind, suffix: Seq<char>)
    requires
        segment_name(name),
        segment_name(hash),
        torrent_wide(k),
        instance_wide_suffix(suffix),
    ensures
        one_segment_at(torrent_uri(name, hash, k), 0, suffix) is None,
{
    reveal(one_segment_at);
    lemma_torrent_uri_chars(name, hash, k);
    lemma_torrent_uri_slashes(name, hash, k);
    reveal_strlit("/torrents");
    reveal_strlit("/transfer");
    reveal_strlit("/categories");
    let t = torrent_uri(name, hash, k);
    let q: int = 14 + name.len() as int;
    if has_prefix(t.skip(q), suffix) {
        let w = t.skip(q).subrange(0, suffix.len() as int);
        assert(w[1] == suffix[1]);
        assert(w[2] == suffix[2]);
        assert(w[8] == suffix[8]);
        assert(w[1] == "/torrent/"@[1]);
        assert(w[2] == "/torrent/"@[2]);
        assert(w[8] == "/torrent/"@[8]);
    }
}

proof fn lemma_two_segments_at_start(t: Seq<char>, q: int, e: int, suffix: Seq<char>)
    requires
        14 < q,
        q + 9 < e,
        has_prefix(t, scheme()),
        slash_from(t, 14) == Some(q),
        has_prefix(t.skip(q), "/torrent/"@),
        slash_from(t, q + 9) == Some(e),
        has_prefix(t.skip(e), suffix),
    ensures
        two_segments_at(t, 0, suffix) == Some((t.subrange(14, q), t.subrange(q + 9, e))),
{
    reveal(two_segments_at);
    reveal_strlit("qbittorrent://");
    assert(t.skip(0) =~= t);
}

proof fn lemma_torrent_uri_prefixes(name: Seq<char>, hash: Seq<char>, k: ResourceKind)
    requires
        segment_name(name),
        segment_name(hash),
        torrent_wide(k),
    ensures
        has_prefix(torrent_uri(name, hash, k), scheme()),
        has_prefix(torrent_uri(name, hash, k).skip(14 + name.len() as int), "/torrent/"@),
        has_prefix(torrent_uri(name, hash, k).skip(23 + name.len() as int + hash.len() as int), instance_suffix(k)),
{
    let t = torrent_uri(name, hash, k);
    let q: int = 14 + name.len() as int;
    let e: int = q + 9 + hash.len() as int;
    let suffix = instance_suffix(k);
    reveal_strlit("qbittorrent://");
    reveal_strlit("/torrent/");
    assert(t.subrange(0, 14) =~= scheme());
    assert(t.skip(q).subrange(0, 9) =~= "/torrent/"@);
    assert(t.skip(e).subrange(0, suffix.len() as int) =~= suffix);
}

proof fn lemma_torrent_uri_parts(name: Seq<char>, hash: Seq<char>, k: ResourceKind)
    requires
        segment_name(name),
        segment_name(hash),
        torrent_wide(k),
    ensures
        torrent_uri(name, hash, k).subrange(14, 14 + name.len() as int) == name,
        torrent_uri(name, hash, k).subrange(23 + name.len() as int, 23 + name.len() as int + hash.len() as int) == hash,
{
    let t = torrent_uri(name, hash, k);
    let q: int = 14 + name.len() as int;
    let b: int = q + 9;
    let e: int = b + hash.len() as int;
    reveal_strlit("qbittorrent://");
    reveal_strlit("/torrent/");
    assert(t.subrange(14, q) =~= name);
    assert(t.subrange(b, e) =~= hash);
}

proof fn lemma_torrent_uri_two_at_start_own(name: Seq<char>, hash: Seq<char>, k: ResourceKind)
    requires
        segment_name(name),
        segment_name(hash),
        torrent_wide(k),
    ensures
        two_segments_at(torrent_uri(name, hash, k), 0, instance_suffix(k)) == Some((name, hash)),
{
    let t = torrent_uri(name, hash, k);
    let q: int = 14 + name.len() as int;
    let e: int = q + 9 + hash.len() as int;
    lemma_torrent_uri_prefixes(name, hash, k);
    lemma_torrent_uri_parts(name, hash, k);
    lemma_torrent_uri_slashes(name, hash, k);
    lemma_two_segments_at_start(t, q, e, instance_suffix(k));
}

proof fn lemma_torrent_uri_two_at_start_other(name: Seq<char>, hash: Seq<char>, k: ResourceKind, suffix: Seq<char>)
    requires
        segment_name(name),
        segment_name(hash),
        torrent_wide(k),
        torrent_wide_suffix(suffix),
        suffix != instance_suffix(k),
    ensures
        two_segments_at(torrent_uri(name, hash, k), 0, suffix) is None,
{
    reveal(two_segments_at);
    lemma_torrent_uri_chars(name, hash, k);
    lemma_torrent_uri_slashes(name, hash, k);
    let t = torrent_uri(name, hash, k);
    let q: int = 14 + name.len() as int;
    let b: int = q + 9;
    let e: int = b + hash.len() as int;
    assert(t.skip(e) =~= instance_suffix(k));
    reveal_strlit("/properties");
    reveal_strlit("/files");
    reveal_strlit("/trackers");
    let s = instance_suffix(k);
    assert(s[1] != suffix[1]);
    if has_prefix(t.skip(e), suffix) {
        assert(t.skip(e).subrange(0, suffix.len() as int)[1] == suffix[1]);
    }
}

proof fn lemma_torrent_uri_two_at_start(name: Seq<char>, hash: Seq<char>, k: ResourceKind, suffix: Seq<char>)
    requires
        segment_name(name),
        segment_name(hash),
        torrent_wide(k),
        torrent_wide_suffix(suffix),
    ensures
        two_segments_at(torrent_uri(name, hash, k), 0, suffix)
            == if suffix == instance_suffix(k) { Some((name, hash)) } else { None::<(Seq<char>, Seq<char>)> },
{
    if suffix == instance_suffix(k) {
        lemma_torrent_uri_two_at_start_own(name, hash, k);
    } else {
        lemma_torrent_uri_two_at_start_other(name, hash, k, suffix);
    }
}

/// Whether `suffix` ends the URI of a torrent's resource.
pub open spec fn torrent_wide_suffix(suffix: Seq<char>) -> bool {
    suffix == "/properties"@ || suffix == "/files"@ || suffix == "/trackers"@
}

/// Reading the URI that a listed template gives for a torrent gives that
/// resource of that torrent back, for an instance name and a hash that can
/// stand in a URI.
pub proof fn template_resources_read_back(name: Seq<char>, hash: Seq<char>, k: ResourceKind)
    requires
        segment_name(name),
        segment_name(hash),
        torrent_wide(k),
    ensures
        resource_of(torrent_uri(name, hash, k)) == Some((k, Some(name), Some(hash))),
{
    let t = torrent_uri(name, hash, k);
    reveal_strlit("/properties");
    reveal_strlit("/files");
    reveal_strlit("/trackers");
    assert("/properties"@[1] != "/files"@[1]);
    assert("/properties"@[1] != "/trackers"@[1]);
    assert("/files"@[1] != "/trackers"@[1]);
    assert forall|s: Seq<char>| instance_wide_suffix(s) implies one_segment(t, s) is None by {
        assert forall|p: int| !(one_segment_at(t, p, s) is Some) by {
            if p != 0 {
                lemma_torrent_uri_no_other_start(name, hash, k, s, p);
            } else {
                lemma_torrent_uri_not_instance_wide(name, hash, k, s);
            }
        }
    }
    assert forall|s: Seq<char>| torrent_wide_suffix(s) implies two_segments(t, s) == if s == instance_suffix(k) {
        Some((name, hash))
    } else {
        None::<(Seq<char>, Seq<char>)>
    } by {
        lemma_torrent_uri_two_at_start(name, hash, k, s);
        if s == instance_suffix(k) {
            let c = choose|p: int| two_segments_at(t, p, s) is Some && forall|o: int| o < p ==> two_segments_at(t, o, s) is None;
            assert(two_segments_at(t, 0, s) is Some && forall|o: int| o < 0 ==> two_segments_at(t, o, s) is None) by {
                assert forall|o: int| o < 0 implies two_segments_at(t, o, s) is None by {
                    lemma_torrent_uri_no_other_start(name, hash, k, s, o);
                }
            }
            if c != 0 {
                lemma_torrent_uri_no_other_start(name, hash, k, s, c);
            }
        } else {
            assert forall|p: int| !(two_segments_at(t, p, s) is Some) by {
                if p != 0 {
                    lemma_torrent_uri_no_other_start(name, hash, k, s, p);
                }
            }
        }
    }
    assert(instance_wide_suffix("/torrents"@));
    assert(instance_wide_suffix("/transfer"@));
    assert(instance_wide_suffix("/categories"@));
    assert(torrent_wide_suffix("/properties"@));
    assert(torrent_wide_suffix("/files"@));
    assert(torrent_wide_suffix("/trackers"@));
}

} // verus!
