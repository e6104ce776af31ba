//! Bulk maintenance over the torrents of an instance: renaming files by a
//! pattern, removing completed torrents, grouping duplicates.
use vstd::prelude::*;
use crate::text::{owned, same};

verus! {

/// The message `regex::Regex::new(pattern)` fails with, or `None` when the
/// pattern compiles.
pub uninterp spec fn pattern_error(pattern: Seq<char>) -> Option<Seq<char>>;

/// `Regex::is_match` of the compiled `pattern` on `text`.
pub uninterp spec fn pattern_matches(pattern: Seq<char>, text: Seq<char>) -> bool;

/// `Regex::replace_all` of the compiled `pattern` on `text` with `replacement`.
pub uninterp spec fn pattern_replaced(pattern: Seq<char>, text: Seq<char>, replacement: Seq<char>) -> Seq<char>;

/// A regular expression together with the pattern text it was compiled from.
/// Its fields are private: `compile_pattern` is the only way to make one, so
/// the compiled expression is always that of `source`.
#[derive(Debug)]
pub struct Pattern {
    source: String,
    compiled: regex::Regex,
}

#[verifier::external_type_specification]
#[verifier::external_body]
pub struct ExRegex(regex::Regex);

impl Pattern {
    /// The pattern text.
    pub closed spec fn source(self) -> Seq<char> {
        self.source@
    }
}

/// Compiles `pattern` with `regex::Regex::new`; on failure the message is
/// the error's text. The contract names both outcomes `pattern_error`.
#[verifier::external_body]
pub fn compile_pattern(pattern: &str) -> (r: Result<Pattern, String>)
    ensures
        match r {
            Ok(p) => pattern_error(pattern@) is None && p.source() == pattern@,
            Err(m) => pattern_error(pattern@) == Some(m@),
        },
{
    match regex::Regex::new(pattern) {
        Ok(compiled) => Ok(Pattern { source: pattern.to_string(), compiled }),
        Err(e) => Err(e.to_string()),
    }
}

/// `Regex::is_match` of the pattern on `text`, named `pattern_matches`.
#[verifier::external_body]
fn pattern_is_match(p: &Pattern, text: &str) -> (r: bool)
    ensures
        r == pattern_matches(p.source(), text@),
{
    p.compiled.is_match(text)
}

/// `Regex::replace_all` of the pattern on `text`, named `pattern_replaced`.
#[verifier::external_body]
fn pattern_replace_all(p: &Pattern, text: &str, replacement: &str) -> (r: String)
    ensures
        r@ == pattern_replaced(p.source(), text@, replacement@),
{
    p.compiled.replace_all(text, replacement).to_string()
}

pub open spec fn names_view(v: Seq<String>) -> Seq<Seq<char>> {
    v.map_values(|s: String| s@)
}

/// The renames that `pattern` with `replacement` makes of the file names:
/// each name the pattern matches and whose replacement differs from it,
/// with its new name, in the order of the names.
pub open spec fn renames(pattern: Seq<char>, names: Seq<Seq<char>>, replacement: Seq<char>) -> Seq<(Seq<char>, Seq<char>)>
    decreases names.len(),
{
    if names.len() == 0 {
        seq![]
    } else {
        let rest = renames(pattern, names.drop_last(), replacement);
        let n = names.last();
        let m = pattern_replaced(pattern, n, replacement);
        if pattern_matches(pattern, n) && m != n {
            rest.push((n, m))
        } else {
            rest
        }
    }
}

/// The renames to perform (see `renames`), as (old name, new name).
pub fn rename_plan(pattern: &Pattern, names: &Vec<String>, replacement: &str) -> (r: Vec<(String, String)>)
    ensures
        crate::client::pairs_view(r@) == renames(pattern.source(), names_view(names@), replacement@),
{
    let ghost nv = names_view(names@);
    let mut r: Vec<(String, String)> = Vec::new();
    let mut i: usize = 0;
    assert(nv.take(0) =~= seq![]);
    assert(crate::client::pairs_view(r@) =~= seq![]);
    while i < names.len()
        invariant
            i <= names.len(),
            nv == names_view(names@),
            crate::client::pairs_view(r@) == renames(pattern.source(), nv.take(i as int), replacement@),
        decreases names.len() - i,
    {
        assert(nv.take(i + 1).drop_last() =~= nv.take(i as int));
        assert(nv.take(i + 1).last() == names@[i as int]@);
        let name = &names[i];
        if pattern_is_match(pattern, name.as_str()) {
            let new_name = pattern_replace_all(pattern, name.as_str(), replacement);
            if !same(new_name.as_str(), name.as_str()) {
                let ghost before = crate::client::pairs_view(r@);
                r.push((name.clone(), new_name));
                assert(crate::client::pairs_view(r@) =~= before.push((names@[i as int]@, r@.last().1@)));
            }
        }
        i = i + 1;
    }
    assert(nv.take(names.len() as int) =~= nv);
    r
}

/// What the rename reply says after `n` files were renamed.
pub fn renamed_message(n: usize) -> (r: String)
    ensures
        r@ == "Successfully renamed "@ + crate::text::decimal(n as nat) + " files."@,
{
    let mut m = owned("Successfully renamed ");
    m.append(crate::text::u64_text(n as u64).as_str());
    m.append(" files.");
    m
}

/// A completed torrent as cleanup judges it: its hash, when it completed
/// (seconds since the epoch, 0 when unknown), and whether its share ratio
/// reached the minimum asked for.
#[derive(Debug)]
pub struct CleanupCandidate {
    pub hash: String,
    pub completion_on: i64,
    pub ratio_reached: bool,
}

/// Whether cleanup removes `c`: only when a minimum ratio or a maximum age
/// is given; then when the ratio is reached or, for a known completion
/// time, at least `max_age_days` days passed since it by `now`.
pub open spec fn cleanup_selects(c: CleanupCandidate, ratio_given: bool, max_age_days: Option<i64>, now: i64) -> bool {
    &&& (ratio_given || max_age_days is Some)
    &&& ((ratio_given && c.ratio_reached)
        || (max_age_days matches Some(d) && c.completion_on > 0 && now - c.completion_on >= d * 86400))
}

/// Cleanup removes a torrent whose ratio reached the minimum asked for,
/// whatever its age, and one that completed at least `max_age_days` days
/// before `now`, whatever its ratio; it removes no other.
pub proof fn cleanup_by_ratio_or_age(c: CleanupCandidate, ratio_given: bool, max_age_days: Option<i64>, now: i64)
    ensures
        ratio_given && c.ratio_reached ==> cleanup_selects(c, ratio_given, max_age_days, now),
        max_age_days is Some && c.completion_on > 0 && now - c.completion_on >= max_age_days->0 * 86400
            ==> cleanup_selects(c, ratio_given, max_age_days, now),
        cleanup_selects(c, ratio_given, max_age_days, now) ==> (ratio_given && c.ratio_reached)
            || (max_age_days is Some && c.completion_on > 0 && now - c.completion_on >= max_age_days->0 * 86400),
{
}

/// A candidate is among the removed hashes exactly when cleanup selects it
/// (`cleanup_by_ratio_or_age` says when that is).
pub proof fn selected_candidates_are_removed(cs: Seq<CleanupCandidate>, ratio_given: bool, max_age_days: Option<i64>, now: i64, i: int)
    requires
        0 <= i < cs.len(),
        cleanup_selects(cs[i], ratio_given, max_age_days, now),
    ensures
        cleanup_hashes(cs, ratio_given, max_age_days, now).contains(cs[i].hash@),
    decreases cs.len(),
{
    let rest = cleanup_hashes(cs.drop_last(), ratio_given, max_age_days, now);
    if i == cs.len() - 1 {
        assert(cleanup_hashes(cs, ratio_given, max_age_days, now) == rest.push(cs.last().hash@));
        assert(rest.push(cs.last().hash@)[rest.len() as int] == cs[i].hash@);
    } else {
        assert(cs.drop_last()[i] == cs[i]);
        selected_candidates_are_removed(cs.drop_last(), ratio_given, max_age_days, now, i);
        let k = choose|k: int| 0 <= k < rest.len() && rest[k] == cs[i].hash@;
        if cleanup_selects(cs.last(), ratio_given, max_age_days, now) {
            assert(rest.push(cs.last().hash@)[k] == cs[i].hash@);
        }
    }
}

/// The hashes of the candidates cleanup removes, in order.
pub open spec fn cleanup_hashes(cs: Seq<CleanupCandidate>, ratio_given: bool, max_age_days: Option<i64>, now: i64) -> Seq<Seq<char>>
    decreases cs.len(),
{
    if cs.len() == 0 {
        seq![]
    } else {
        let rest = cleanup_hashes(cs.drop_last(), ratio_given, max_age_days, now);
        if cleanup_selects(cs.last(), ratio_given, max_age_days, now) {
            rest.push(cs.last().hash@)
        } else {
            rest
        }
    }
}

fn selects(c: &CleanupCandidate, ratio_given: bool, max_age_days: Option<i64>, now: i64) -> (r: bool)
    ensures
        r == cleanup_selects(*c, ratio_given, max_age_days, now),
        ratio_given && c.ratio_reached ==> r,
        max_age_days is Some && c.completion_on > 0 && now - c.completion_on >= max_age_days->0 * 86400 ==> r,
        r ==> (ratio_given && c.ratio_reached)
            || (max_age_days is Some && c.completion_on > 0 && now - c.completion_on >= max_age_days->0 * 86400),
{
    if !ratio_given && max_age_days.is_none() {
        return false;
    }
    if ratio_given && c.ratio_reached {
        return true;
    }
    match max_age_days {
        Some(d) => {
            let age: i128 = now as i128 - c.completion_on as i128;
            let limit: i128 = d as i128 * 86400;
            c.completion_on > 0 && age >= limit
        },
        None => false,
    }
}

/// The hashes of the completed torrents to remove (see `cleanup_selects`).
pub fn select_for_cleanup(cs: &Vec<CleanupCandidate>, ratio_given: bool, max_age_days: Option<i64>, now: i64) -> (r: Vec<String>)
    ensures
        names_view(r@) == cleanup_hashes(cs@, ratio_given, max_age_days, now),
{
    let mut r: Vec<String> = Vec::new();
    let mut i: usize = 0;
    assert(names_view(r@) =~= seq![]);
    while i < cs.len()
        invariant
            i <= cs.len(),
            names_view(r@) == cleanup_hashes(cs@.take(i as int), ratio_given, max_age_days, now),
        decreases cs.len() - i,
    {
        assert(cs@.take(i + 1).drop_last() =~= cs@.take(i as int));
        assert(cs@.take(i + 1).last() == cs@[i as int]);
        if selects(&cs[i], ratio_given, max_age_days, now) {
            let ghost before = names_view(r@);
            r.push(cs[i].hash.clone());
            assert(names_view(r@) =~= before.push(cs@[i as int].hash@));
        }
        i = i + 1;
    }
    assert(cs@.take(cs.len() as int) =~= cs@);
    r
}

/// `parts` joined with `sep` between them.
pub open spec fn joined(parts: Seq<Seq<char>>, sep: Seq<char>) -> Seq<char>
    decreases parts.len(),
{
    if parts.len() == 0 {
        seq![]
    } else if parts.len() == 1 {
        parts[0]
    } else {
        joined(parts.drop_last(), sep) + sep + parts.last()
    }
}

/// `parts` joined with `sep` between them (`parts.join(sep)`).
pub fn join(parts: &Vec<String>, sep: &str) -> (r: String)
    ensures
        r@ == joined(names_view(parts@), sep@),
{
    let ghost pv = names_view(parts@);
    let mut r = String::new();
    let mut i: usize = 0;
    assert(pv.take(0) =~= seq![]);
    while i < parts.len()
        invariant
            i <= parts.len(),
            pv == names_view(parts@),
            r@ == joined(pv.take(i as int), sep@),
        decreases parts.len() - i,
    {
        assert(pv.take(i + 1).drop_last() =~= pv.take(i as int));
        if i > 0 {
            r.append(sep);
        }
        r.append(parts[i].as_str());
        i = i + 1;
        assert(i == 1 ==> r@ =~= pv.take(i as int)[0]);
    }
    assert(pv.take(parts.len() as int) =~= pv);
    r
}

/// The reply of a cleanup that removed nothing.
pub fn nothing_cleaned_message() -> (r: String)
    ensures
        r@ == "No torrents matched the cleanup criteria."@,
{
    owned("No torrents matched the cleanup criteria.")
}

/// The reply of a cleanup that removed `n` torrents.
pub fn cleaned_message(n: usize) -> (r: String)
    ensures
        r@ == "Successfully cleaned up "@ + crate::text::decimal(n as nat) + " torrents."@,
{
    let mut m = owned("Successfully cleaned up ");
    m.append(crate::text::u64_text(n as u64).as_str());
    m.append(" torrents.");
    m
}

/// A name shared by several torrents, with their positions in the list.
#[derive(Debug)]
pub struct DuplicateGroup {
    pub name: String,
    pub indices: Vec<usize>,
}

/// Whether `name` occurs at two different positions of `names`.
pub open spec fn is_duplicated(names: Seq<Seq<char>>, name: Seq<char>) -> bool {
    exists|i: int, j: int| 0 <= i < j < names.len() && names[i] == name && names[j] == name
}

/// Whether `idx` lists, in increasing order, exactly the positions of `name` in `names`.
pub open spec fn lists_positions(names: Seq<Seq<char>>, name: Seq<char>, idx: Seq<usize>) -> bool {
    &&& forall|k: int, l: int| 0 <= k < l < idx.len() ==> idx[k] < idx[l]
    &&& forall|k: int| 0 <= k < idx.len() ==> idx[k] < names.len() && names[idx[k] as int] == name
    &&& forall|i: int| 0 <= i < names.len() && names[i] == name ==> idx.contains(i as usize)
}

/// Whether `groups` are the duplicate groups of `names`: one per name that
/// occurs more than once, each listing every position of its name, ordered
/// by the first position of their name.
pub open spec fn duplicate_groups_of(names: Seq<Seq<char>>, groups: Seq<DuplicateGroup>) -> bool {
    &&& forall|g: int| 0 <= g < groups.len() ==> groups[g].indices@.len() >= 2
        && lists_positions(names, groups[g].name@, groups[g].indices@)
    &&& forall|g: int, h: int| 0 <= g < h < groups.len() ==> groups[g].indices@[0] < groups[h].indices@[0]
    &&& forall|i: int| 0 <= i < names.len() && is_duplicated(names, names[i])
        ==> exists|g: int| 0 <= g < groups.len() && groups[g].name@ == names[i]
}

/// The positions from `from` on that hold `name`.
fn positions_from(names: &Vec<String>, name: &str, from: usize) -> (r: Vec<usize>)
    requires
        from <= names.len(),
    ensures
        forall|k: int, l: int| 0 <= k < l < r@.len() ==> r@[k] < r@[l],
        forall|k: int| 0 <= k < r@.len() ==> from <= r@[k] < names.len() && names@[r@[k] as int]@ == name@,
        forall|i: int| from <= i < names.len() && names@[i]@ == name@ ==> r@.contains(i as usize),
{
    let mut r: Vec<usize> = Vec::new();
    let mut i = from;
    while i < names.len()
        invariant
            from <= i <= names.len(),
            forall|k: int, l: int| 0 <= k < l < r@.len() ==> r@[k] < r@[l],
            forall|k: int| 0 <= k < r@.len() ==> from <= r@[k] < i && names@[r@[k] as int]@ == name@,
            forall|j: int| from <= j < i && names@[j]@ == name@ ==> r@.contains(j as usize),
        decreases names.len() - i,
    {
        if same(names[i].as_str(), name) {
            let ghost before = r@;
            r.push(i);
            assert forall|j: int| from <= j < i + 1 && names@[j]@ == name@ implies r@.contains(j as usize) by {
                if j == i {
                    assert(r@[r@.len() - 1] == i);
                } else {
                    let k = choose|k: int| 0 <= k < before.len() && before[k] == j as usize;
                    assert(r@[k] == j as usize);
                }
            }
        }
        i = i + 1;
    }
    r
}

/// Whether the name at `i` also occurs before `i`.
fn seen_before(names: &Vec<String>, i: usize) -> (r: bool)
    requires
        i < names.len(),
    ensures
        r == exists|j: int| 0 <= j < i && names@[j]@ == names@[i as int]@,
{
    let mut j: usize = 0;
    while j < i
        invariant
            j <= i < names.len(),
            forall|k: int| 0 <= k < j ==> names@[k]@ != names@[i as int]@,
        decreases i - j,
    {
        if same(names[j].as_str(), names[i].as_str()) {
            return true;
        }
        j = j + 1;
    }
    false
}

/// Groups the torrents by name, keeping the names shared by several
/// torrents (see `duplicate_groups_of`).
pub fn duplicate_groups(names: &Vec<String>) -> (r: Vec<DuplicateGroup>)
    ensures
        duplicate_groups_of(names_view(names@), r@),
{
    let ghost nv = names_view(names@);
    let mut groups: Vec<DuplicateGroup> = Vec::new();
    let mut i: usize = 0;
    while i < names.len()
        invariant
            i <= names.len(),
            nv == names_view(names@),
            forall|g: int| 0 <= g < groups@.len() ==> groups@[g].indices@.len() >= 2
                && lists_positions(nv, groups@[g].name@, groups@[g].indices@)
                && groups@[g].indices@[0] < i,
            forall|g: int, h: int| 0 <= g < h < groups@.len() ==> groups@[g].indices@[0] < groups@[h].indices@[0],
            forall|k: int| 0 <= k < i && is_duplicated(nv, nv[k])
                ==> exists|g: int| 0 <= g < groups@.len() && groups@[g].name@ == nv[k],
        decreases names.len() - i,
    {
        if !seen_before(names, i) {
            let pos = positions_from(names, names[i].as_str(), i);
            assert(pos@.contains(i)) by {
                assert(nv[i as int] == names@[i as int]@);
            }
            if pos.len() >= 2 {
                let ghost before = groups@;
                assert(pos@[0] == i) by {
                    let k = choose|k: int| 0 <= k < pos@.len() && pos@[k] == i;
                    if k > 0 {
                        assert(pos@[0] < pos@[k]);
                    }
                }
                assert(lists_positions(nv, names@[i as int]@, pos@)) by {
                    assert forall|j: int| 0 <= j < nv.len() && nv[j] == names@[i as int]@ implies pos@.contains(j as usize) by {
                        if j < i {
                            assert(names@[j]@ == names@[i as int]@);
                        }
                    }
                }
                groups.push(DuplicateGroup { name: names[i].clone(), indices: pos });
                assert forall|k: int| 0 <= k < i + 1 && is_duplicated(nv, nv[k])
                    implies exists|g: int| 0 <= g < groups@.len() && groups@[g].name@ == nv[k] by {
                    if k == i {
                        assert(groups@[groups@.len() - 1].name@ == nv[k]);
                    } else {
                        let g = choose|g: int| 0 <= g < before.len() && before[g].name@ == nv[k];
                        assert(groups@[g].name@ == nv[k]);
                    }
                }
            } else {
                assert forall|k: int| 0 <= k < i + 1 && is_duplicated(nv, nv[k])
                    implies exists|g: int| 0 <= g < groups@.len() && groups@[g].name@ == nv[k] by {
                    if k == i {
                        let (a, b) = choose|a: int, b: int| 0 <= a < b < nv.len() && nv[a] == nv[k] && nv[b] == nv[k];
                        assert(nv[a] == names@[a]@ && nv[b] == names@[b]@);
                        assert(pos@.contains(a as usize));
                        assert(pos@.contains(b as usize));
                        let ka = choose|x: int| 0 <= x < pos@.len() && pos@[x] == a as usize;
                        let kb = choose|x: int| 0 <= x < pos@.len() && pos@[x] == b as usize;
                        assert(ka != kb);
                        assert(false);
                    }
                }
            }
        } else {
            assert forall|k: int| 0 <= k < i + 1 && is_duplicated(nv, nv[k])
                implies exists|g: int| 0 <= g < groups@.len() && groups@[g].name@ == nv[k] by {
                if k == i {
                    let j = choose|j: int| 0 <= j < i && names@[j]@ == names@[i as int]@;
                    assert(nv[j] == nv[k]);
                    assert(is_duplicated(nv, nv[j]));
                }
            }
        }
        i = i + 1;
    }
    groups
}

/// The reply when no name is shared.
pub fn no_duplicates_message() -> (r: String)
    ensures
        r@ == "No duplicate torrents found."@,
{
    owned("No duplicate torrents found.")
}

} // verus!
