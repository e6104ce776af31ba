//! JSON values exchanged over the Model Context Protocol.
use vstd::prelude::*;
use crate::text::{owned, same};

verus! {

/// A JSON value. Numbers that fit in an `i64` are `Int`; any other number
/// is `Num`, held as the text of its `f64` value.
#[derive(Debug)]
pub enum Json {
    Null,
    Bool(bool),
    Int(i64),
    Num(String),
    Str(String),
    Arr(Vec<Json>),
    Obj(Vec<(String, Json)>),
}

/// The value under `key` among object entries: the first entry with that key.
pub open spec fn entry_value(entries: Seq<(String, Json)>, key: Seq<char>) -> Option<Json>
    decreases entries.len(),
{
    if entries.len() == 0 {
        None
    } else if entries[0].0@ == key {
        Some(entries[0].1)
    } else {
        entry_value(entries.drop_first(), key)
    }
}

impl Json {
    /// `value.get(key)`: the member `key` of an object; `None` for a missing key or a non-object.
    pub open spec fn member(self, key: Seq<char>) -> Option<Json> {
        match self {
            Json::Obj(entries) => entry_value(entries@, key),
            _ => None,
        }
    }

    /// `value.as_str()`.
    pub open spec fn str_of(self) -> Option<Seq<char>> {
        match self {
            Json::Str(s) => Some(s@),
            _ => None,
        }
    }

    /// `value.as_bool()`.
    pub open spec fn bool_of(self) -> Option<bool> {
        match self {
            Json::Bool(b) => Some(b),
            _ => None,
        }
    }

    /// `value.as_i64()`.
    pub open spec fn int_of(self) -> Option<i64> {
        match self {
            Json::Int(i) => Some(i),
            _ => None,
        }
    }

    /// Whether `value.as_f64()` is `Some`.
    pub open spec fn is_number(self) -> bool {
        self is Int || self is Num
    }

    /// The member `key` of an object.
    pub fn get(&self, key: &str) -> (r: Option<&Json>)
        ensures
            match r {
                Some(v) => self.member(key@) == Some(*v),
                None => self.member(key@) is None,
            },
    {
        match self {
            Json::Obj(entries) => {
                let mut i: usize = 0;
                assert(entries@.subrange(0, entries@.len() as int) =~= entries@);
                while i < entries.len()
                    invariant
                        i <= entries.len(),
                        self.member(key@) == entry_value(entries@, key@),
                        entry_value(entries@, key@) == entry_value(entries@.subrange(i as int, entries@.len() as int), key@),
                    decreases entries.len() - i,
                {
                    let ghost rest = entries@.subrange(i as int, entries@.len() as int);
                    assert(rest[0] == entries@[i as int]);
                    assert(rest.drop_first() =~= entries@.subrange(i + 1, entries@.len() as int));
                    if same(entries[i].0.as_str(), key) {
                        return Some(&entries[i].1);
                    }
                    i = i + 1;
                }
                None
            },
            _ => None,
        }
    }
}

/// A JSON string.
pub fn jstr(s: &str) -> (r: Json)
    ensures
        r matches Json::Str(t) && t@ == s@,
{
    Json::Str(owned(s))
}

/// A JSON object entry `key: value`.
pub fn entry(key: &str, value: Json) -> (r: (String, Json))
    ensures
        r.0@ == key@,
        r.1 == value,
{
    (owned(key), value)
}

fn find_entry(entries: &Vec<(String, Json)>, key: &str) -> (r: Option<usize>)
    ensures
        match r {
            Some(i) => i < entries.len() && entry_value(entries@, key@) == Some(entries@[i as int].1),
            None => entry_value(entries@, key@) is None,
        },
{
    let mut i: usize = 0;
    assert(entries@.subrange(0, entries@.len() as int) =~= entries@);
    while i < entries.len()
        invariant
            i <= entries.len(),
            entry_value(entries@, key@) == entry_value(entries@.subrange(i as int, entries@.len() as int), key@),
        decreases entries.len() - i,
    {
        let ghost rest = entries@.subrange(i as int, entries@.len() as int);
        assert(rest[0] == entries@[i as int]);
        assert(rest.drop_first() =~= entries@.subrange(i + 1, entries@.len() as int));
        if same(entries[i].0.as_str(), key) {
            return Some(i);
        }
        i = i + 1;
    }
    None
}

fn take_entry(entries: Vec<(String, Json)>, key: &str) -> (r: Option<Json>)
    ensures
        r == entry_value(entries@, key@),
{
    let ghost all = entries@;
    match find_entry(&entries, key) {
        Some(i) => {
            let mut entries = entries;
            let pair = entries.remove(i);
            assert(pair == all[i as int]);
            Some(pair.1)
        },
        None => None,
    }
}

/// The member `key` of an object, moved out of it.
pub fn into_member(j: Json, key: &str) -> (r: Option<Json>)
    ensures
        r == j.member(key@),
{
    match j {
        Json::Obj(entries) => take_entry(entries, key),
        _ => None,
    }
}

} // verus!
