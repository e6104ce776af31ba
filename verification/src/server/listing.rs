//! What `list_torrents` shows: the torrents whose names hold a search text
//! (in any ASCII case), as a table, as objects keeping chosen fields, or
//! in full.
use vstd::prelude::*;
use crate::json::Json;
use crate::text::{owned, cat, chars_of, u64_text, decimal};
use crate::app::{ascii_lower, lower_char};
use crate::server::maintenance::names_view;

verus! {

/// The strings among `items`, in order.
pub open spec fn string_items(items: Seq<Json>) -> Seq<Seq<char>>
    decreases items.len(),
{
    if items.len() == 0 {
        seq![]
    } else {
        let earlier = string_items(items.drop_last());
        match items.last() {
            Json::Str(t) => earlier.push(t@),
            _ => earlier,
        }
    }
}

/// The field names that the argument `fields` asks for: the strings of
/// that array, or `None` when it is not an array.
pub open spec fn fields_member(args: Json) -> Option<Seq<Seq<char>>> {
    match args.member("fields"@) {
        Some(Json::Arr(items)) => Some(string_items(items@)),
        _ => None,
    }
}

/// The field names of the argument `fields` (see `fields_member`).
pub fn get_fields(args: &Json) -> (r: Option<Vec<String>>)
    ensures
        match r {
            Some(v) => fields_member(*args) == Some(names_view(v@)),
            None => fields_member(*args) is None,
        },
{
    match args.get("fields") {
        Some(Json::Arr(items)) => {
            let mut r: Vec<String> = Vec::new();
            let mut i: usize = 0;
            assert(items@.take(0) =~= Seq::<Json>::empty());
            assert(names_view(r@) =~= Seq::<Seq<char>>::empty());
            while i < items.len()
                invariant
                    i <= items.len(),
                    names_view(r@) == string_items(items@.take(i as int)),
                decreases items.len() - i,
            {
                assert(items@.take(i + 1).drop_last() =~= items@.take(i as int));
                assert(items@.take(i + 1).last() == items@[i as int]);
                match &items[i] {
                    Json::Str(t) => {
                        let ghost before = names_view(r@);
                        r.push(t.clone());
                        assert(names_view(r@) =~= before.push(t@));
                    },
                    _ => {},
                }
                i = i + 1;
            }
            assert(items@.take(items.len() as int) =~= items@);
            Some(r)
        },
        _ => None,
    }
}

/// Whether `search` stands in `name` at position `i`, ASCII letters
/// compared in lower case.
pub open spec fn found_at(name: Seq<char>, search: Seq<char>, i: int) -> bool {
    &&& 0 <= i
    &&& i + search.len() <= name.len()
    &&& forall|k: int| 0 <= k < search.len() ==> ascii_lower(name[i + k]) == ascii_lower(#[trigger] search[k])
}

/// Whether `name` holds `search`, ASCII letters compared in lower case.
pub open spec fn name_holds(name: Seq<char>, search: Seq<char>) -> bool {
    exists|i: int| found_at(name, search, i)
}

/// A name holds a search text when the text, in lower case, stands anywhere
/// in the name in lower case: at its start, in its middle or at its end.
pub proof fn search_found_anywhere(name: Seq<char>, search: Seq<char>, i: int)
    requires
        0 <= i,
        i + search.len() <= name.len(),
        forall|k: int| 0 <= k < search.len() ==> ascii_lower(name[i + k]) == ascii_lower(#[trigger] search[k]),
    ensures
        name_holds(name, search),
{
    assert(found_at(name, search, i));
}

/// A name holds a search text only where the text stands in it, in lower case.
pub proof fn search_found_somewhere(name: Seq<char>, search: Seq<char>)
    requires
        name_holds(name, search),
    ensures
        exists|i: int| #![trigger name.skip(i)] 0 <= i && i + search.len() <= name.len()
            && forall|k: int| 0 <= k < search.len() ==> ascii_lower(name[i + k]) == ascii_lower(#[trigger] search[k]),
{
    let i = choose|i: int| found_at(name, search, i);
    assert(name.skip(i).len() == name.len() - i);
    assert(0 <= i && i + search.len() <= name.len()
        && forall|k: int| 0 <= k < search.len() ==> ascii_lower(name[i + k]) == ascii_lower(#[trigger] search[k]));
}

/// A name that ends with the search text, or is the search text, holds it;
/// so does a name that starts with it.
pub proof fn search_found_at_the_ends(s: Seq<char>, t: Seq<char>)
    ensures
        name_holds(s + t, t),
        name_holds(t + s, t),
        name_holds(t, t),
{
    assert forall|k: int| 0 <= k < t.len() implies ascii_lower((s + t)[s.len() + k]) == ascii_lower(#[trigger] t[k]) by {
        assert((s + t)[s.len() + k] == t[k]);
    }
    search_found_anywhere(s + t, t, s.len() as int);
    assert forall|k: int| 0 <= k < t.len() implies ascii_lower((t + s)[0 + k]) == ascii_lower(#[trigger] t[k]) by {
        assert((t + s)[0 + k] == t[k]);
    }
    search_found_anywhere(t + s, t, 0);
    assert forall|k: int| 0 <= k < t.len() implies ascii_lower(t[0 + k]) == ascii_lower(#[trigger] t[k]) by {}
    search_found_anywhere(t, t, 0);
}

/// Whether a torrent named `name` is listed: always without a search,
/// else when its name holds the search text.
pub open spec fn listed_by_search(name: Seq<char>, search: Option<Seq<char>>) -> bool {
    match search {
        None => true,
        Some(s) => name_holds(name, s),
    }
}

fn found_at_exec(cs: &Vec<char>, ss: &Vec<char>, i: usize) -> (r: bool)
    requires
        i + ss.len() <= cs.len(),
    ensures
        r == found_at(cs@, ss@, i as int),
{
    let mut k: usize = 0;
    while k < ss.len()
        invariant
            k <= ss.len(),
            i + ss.len() <= cs.len(),
            forall|m: int| 0 <= m < k ==> ascii_lower(cs@[i + m]) == ascii_lower(#[trigger] ss@[m]),
        decreases ss.len() - k,
    {
        if lower_char(cs[i + k]) != lower_char(ss[k]) {
            assert(ascii_lower(cs@[i + k]) != ascii_lower(ss@[k as int]));
            return false;
        }
        k = k + 1;
    }
    true
}

/// Whether `name` holds `search` (see `name_holds`).
pub fn holds_search(name: &str, search: &str) -> (r: bool)
    ensures
        r == name_holds(name@, search@),
{
    let cs = chars_of(name);
    let ss = chars_of(search);
    if ss.len() > cs.len() {
        assert forall|i: int| !found_at(name@, search@, i) by {}
        return false;
    }
    let last = cs.len() - ss.len();
    let mut i: usize = 0;
    while i <= last
        invariant
            last == cs.len() - ss.len(),
            ss.len() <= cs.len(),
            cs@ == name@,
            ss@ == search@,
            forall|j: int| 0 <= j < i ==> !found_at(name@, search@, j),
        decreases last + 1 - i,
    {
        if found_at_exec(&cs, &ss, i) {
            return true;
        }
        i = i + 1;
    }
    assert forall|j: int| !found_at(name@, search@, j) by {
        if 0 <= j && j < i {
        }
    }
    false
}

/// For each torrent name, whether it is listed (see `listed_by_search`).
pub fn search_keeps(names: &Vec<String>, search: Option<&str>) -> (r: Vec<bool>)
    ensures
        r@.len() == names@.len(),
        forall|i: int| 0 <= i < names@.len() ==> r@[i] == listed_by_search(names@[i]@, match search {
            Some(s) => Some(s@),
            None => None,
        }),
{
    let ghost sv = match search { Some(s) => Some(s@), None => None::<Seq<char>> };
    let mut r: Vec<bool> = Vec::new();
    let mut i: usize = 0;
    while i < names.len()
        invariant
            i <= names.len(),
            r@.len() == i,
            sv == match search { Some(s) => Some(s@), None => None::<Seq<char>> },
            forall|j: int| 0 <= j < i ==> r@[j] == listed_by_search(names@[j]@, sv),
        decreases names.len() - i,
    {
        let keep = match search {
            Some(s) => holds_search(names[i].as_str(), s),
            None => true,
        };
        r.push(keep);
        i = i + 1;
    }
    r
}

/// How the listed torrents are shown.
#[derive(Debug, Clone, Copy, PartialEq, Eq, Structural)]
pub enum ListingMode {
    /// A table of name, progress, state and hash, after a count.
    Table,
    /// An object with the count and the torrents keeping only the fields asked for.
    Fields,
    /// The torrents in full.
    Full,
}

/// The table when a summary is asked for, else the chosen fields when
/// fields are given, else everything.
pub fn listing_mode(summary: bool, has_fields: bool) -> (r: ListingMode)
    ensures
        r == (if summary { ListingMode::Table } else if has_fields { ListingMode::Fields } else { ListingMode::Full }),
{
    if summary {
        ListingMode::Table
    } else if has_fields {
        ListingMode::Fields
    } else {
        ListingMode::Full
    }
}

/// One line of the table: a torrent's name, progress in percent (as
/// text), state and hash.
pub struct SummaryRow {
    pub name: String,
    pub progress: String,
    pub state: String,
    pub hash: String,
}

pub open spec fn row_line(r: SummaryRow) -> Seq<char> {
    r.name@ + " | "@ + r.progress@ + " | "@ + r.state@ + " | "@ + r.hash@ + "\n"@
}

/// The lines of the rows, each ended by a line break.
pub open spec fn row_lines(rows: Seq<SummaryRow>) -> Seq<char>
    decreases rows.len(),
{
    if rows.len() == 0 {
        seq![]
    } else {
        row_lines(rows.drop_last()) + row_line(rows.last())
    }
}

/// The head of the table: the count, the column names, a rule.
pub open spec fn table_head(n: nat) -> Seq<char> {
    "Found "@ + decimal(n) + " torrents\n"@ + "Name | Prog % | State | Hash\n"@ + "-----|--------|-------|-----\n"@
}

/// The summary of the listed torrents: `Found <n> torrents`, the column
/// names `Name | Prog % | State | Hash`, a rule, then one line per torrent.
pub fn summary_table(rows: &Vec<SummaryRow>) -> (r: String)
    ensures
        r@ == table_head(rows@.len()) + row_lines(rows@),
{
    let n = u64_text(rows.len() as u64);
    let mut r = cat("Found ", n.as_str());
    r = cat(r.as_str(), " torrents\n");
    r = cat(r.as_str(), "Name | Prog % | State | Hash\n");
    r = cat(r.as_str(), "-----|--------|-------|-----\n");
    let ghost head = r@;
    assert(rows@.take(0) =~= Seq::<SummaryRow>::empty());
    let mut i: usize = 0;
    while i < rows.len()
        invariant
            i <= rows.len(),
            head == table_head(rows@.len()),
            r@ == head + row_lines(rows@.take(i as int)),
        decreases rows.len() - i,
    {
        assert(rows@.take(i + 1).drop_last() =~= rows@.take(i as int));
        assert(rows@.take(i + 1).last() == rows@[i as int]);
        let row = &rows[i];
        let mut line = cat(row.name.as_str(), " | ");
        line = cat(line.as_str(), row.progress.as_str());
        line = cat(line.as_str(), " | ");
        line = cat(line.as_str(), row.state.as_str());
        line = cat(line.as_str(), " | ");
        line = cat(line.as_str(), row.hash.as_str());
        line = cat(line.as_str(), "\n");
        assert(line@ == row_line(rows@[i as int]));
        r = cat(r.as_str(), line.as_str());
        assert(r@ =~= head + row_lines(rows@.take(i + 1)));
        i = i + 1;
    }
    assert(rows@.take(rows.len() as int) =~= rows@);
    r
}

/// The entries of `es` whose key is among `fields`, in order.
pub open spec fn kept_entries(es: Seq<(String, Json)>, fields: Seq<Seq<char>>) -> Seq<(String, Json)>
    decreases es.len(),
{
    if es.len() == 0 {
        seq![]
    } else {
        let earlier = kept_entries(es.drop_last(), fields);
        if fields.contains(es.last().0@) {
            earlier.push(es.last())
        } else {
            earlier
        }
    }
}

/// Whether `p` is `t` keeping only the members named in `fields` (a value
/// that is not an object is kept as it is).
pub open spec fn projection_of(p: Json, t: Json, fields: Seq<Seq<char>>) -> bool {
    match t {
        Json::Obj(es) => p matches Json::Obj(ks) && ks@ == kept_entries(es@, fields),
        _ => p == t,
    }
}

fn in_fields(fields: &Vec<String>, key: &str) -> (r: bool)
    ensures
        r == names_view(fields@).contains(key@),
{
    let mut i: usize = 0;
    while i < fields.len()
        invariant
            i <= fields.len(),
            forall|j: int| 0 <= j < i ==> fields@[j]@ != key@,
        decreases fields.len() - i,
    {
        if crate::text::same(fields[i].as_str(), key) {
            assert(names_view(fields@)[i as int] == key@);
            return true;
        }
        i = i + 1;
    }
    assert(!names_view(fields@).contains(key@)) by {
        if names_view(fields@).contains(key@) {
            let j = choose|j: int| 0 <= j < names_view(fields@).len() && names_view(fields@)[j] == key@;
            assert(fields@[j]@ == key@);
        }
    }
    false
}

/// `t` keeping only the members named in `fields`.
pub fn project(t: Json, fields: &Vec<String>) -> (r: Json)
    ensures
        projection_of(r, t, names_view(fields@)),
{
    match t {
        Json::Obj(es) => {
            let ghost all = es@;
            let ghost fv = names_view(fields@);
            let mut rest = es;
            let mut ks: Vec<(String, Json)> = Vec::new();
            let mut i: usize = 0;
            let total = rest.len();
            assert(all.len() == total);
            assert(all.take(0) =~= Seq::<(String, Json)>::empty());
            while rest.len() > 0
                invariant
                    all.len() <= usize::MAX,
                    i + rest@.len() == all.len(),
                    rest@ == all.skip(i as int),
                    fv == names_view(fields@),
                    ks@ == kept_entries(all.take(i as int), fv),
                decreases rest.len(),
            {
                let e = rest.remove(0);
                assert(e == all[i as int]);
                assert(all.take(i + 1).drop_last() =~= all.take(i as int));
                assert(all.take(i + 1).last() == all[i as int]);
                if in_fields(fields, e.0.as_str()) {
                    ks.push(e);
                }
                assert(rest@ =~= all.skip(i + 1));
                i = i + 1;
            }
            assert(all.take(all.len() as int) =~= all);
            Json::Obj(ks)
        },
        other => other,
    }
}

/// The listing with chosen fields: `{"total": n, "torrents": [..]}`, each
/// torrent keeping only the members named in `fields`.
pub fn fields_listing(torrents: Vec<Json>, fields: &Vec<String>) -> (r: Json)
    requires
        torrents@.len() <= i64::MAX,
    ensures
        r matches Json::Obj(es) && es@.len() == 2
            && es@[0].0@ == "total"@ && es@[0].1 == Json::Int(torrents@.len() as i64)
            && es@[1].0@ == "torrents"@
            && (es@[1].1 matches Json::Arr(items) && items@.len() == torrents@.len()
                && forall|i: int| 0 <= i < torrents@.len() ==> projection_of(#[trigger] items@[i], torrents@[i], names_view(fields@))),
{
    let ghost all = torrents@;
    let n = torrents.len();
    let mut rest = torrents;
    let mut out: Vec<Json> = Vec::new();
    while rest.len() > 0
        invariant
            out@.len() + rest@.len() == all.len(),
            rest@ == all.skip(out@.len() as int),
            forall|i: int| 0 <= i < out@.len() ==> projection_of(#[trigger] out@[i], all[i], names_view(fields@)),
        decreases rest.len(),
    {
        let ghost k = out@.len();
        let t = rest.remove(0);
        assert(t == all[k as int]);
        let p = project(t, fields);
        out.push(p);
        assert(rest@ =~= all.skip(k as int + 1));
    }
    let mut es: Vec<(String, Json)> = Vec::new();
    es.push((owned("total"), Json::Int(n as i64)));
    es.push((owned("torrents"), Json::Arr(out)));
    Json::Obj(es)
}

} // verus!
