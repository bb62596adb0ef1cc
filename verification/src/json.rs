use vstd::prelude::*;

use crate::text::str_eq;

verus! {

/// A JSON document as this library reads and writes it.
///
/// Objects keep their entries in order; a lookup by key finds the first entry with that key.
/// Numbers that are not integers are kept as their JSON text.
#[derive(Debug)]
pub enum Json {
    Null,
    Bool(bool),
    Int(i64),
    UInt(u64),
    NumberText(String),
    Str(String),
    Array(Vec<Json>),
    Object(Vec<(String, Json)>),
}

/// No two entries of `m` have the same key.
pub open spec fn distinct_keys(m: Seq<(String, Json)>) -> bool {
    forall|i: int, j: int| 0 <= i < j < m.len() ==> #[trigger] m[i].0@ != #[trigger] m[j].0@
}

impl Json {
    /// The document is one that JSON text can stand for as a map: every object, at every
    /// depth, holds each key once.
    pub open spec fn well_formed(self) -> bool
        decreases self,
    {
        match self {
            Json::Array(vs) => forall|i: int|
                #![trigger vs@[i]]
                0 <= i < vs@.len() ==> vs@[i].well_formed(),
            Json::Object(m) => distinct_keys(m@) && forall|i: int|
                #![trigger m@[i]]
                0 <= i < m@.len() ==> m@[i].1.well_formed(),
            _ => true,
        }
    }
}

/// Index of the first entry of `m`, from `i` on, whose key is `key`; `m.len()` when there is none.
pub open spec fn entry_index_from(m: Seq<(String, Json)>, key: Seq<char>, i: int) -> int
    decreases m.len() - i,
{
    if i < 0 || i >= m.len() {
        m.len() as int
    } else if m[i].0@ == key {
        i
    } else {
        entry_index_from(m, key, i + 1)
    }
}

/// Index of the first entry of `m` whose key is `key`; `m.len()` when there is none.
pub open spec fn entry_index(m: Seq<(String, Json)>, key: Seq<char>) -> int {
    entry_index_from(m, key, 0)
}

/// The value of the first entry of `m` whose key is `key`.
pub open spec fn entry_value(m: Seq<(String, Json)>, key: Seq<char>) -> Option<Json> {
    let i = entry_index(m, key);
    if 0 <= i < m.len() {
        Some(m[i].1)
    } else {
        None
    }
}

/// The member `key` of `v`, when `v` is an object that has one.
pub open spec fn member(v: Json, key: Seq<char>) -> Option<Json> {
    match v {
        Json::Object(m) => entry_value(m@, key),
        _ => None,
    }
}

/// The text of `v`, when `v` is a string.
pub open spec fn text_of(v: Json) -> Option<Seq<char>> {
    match v {
        Json::Str(s) => Some(s@),
        _ => None,
    }
}

proof fn lemma_entry_index_from_bounds(m: Seq<(String, Json)>, key: Seq<char>, i: int)
    requires
        0 <= i <= m.len(),
    ensures
        i <= entry_index_from(m, key, i) <= m.len(),
        entry_index_from(m, key, i) < m.len() ==> m[entry_index_from(m, key, i)].0@ == key,
        forall|k: int| i <= k < entry_index_from(m, key, i) ==> m[k].0@ != key,
    decreases m.len() - i,
{
    if i < m.len() && m[i].0@ != key {
        lemma_entry_index_from_bounds(m, key, i + 1);
    }
}

/// Index of the first entry of `m` whose key is `key`; `m.len()` when there is none.
pub fn entry_position(m: &Vec<(String, Json)>, key: &str) -> (r: usize)
    ensures
        r == entry_index(m@, key@),
        r <= m@.len(),
{
    proof {
        lemma_entry_index_from_bounds(m@, key@, 0);
    }
    let mut i: usize = 0;
    while i < m.len()
        invariant
            i <= m.len(),
            entry_index(m@, key@) == entry_index_from(m@, key@, i as int),
        decreases m.len() - i,
    {
        if str_eq(m[i].0.as_str(), key) {
            assert(m@[i as int].0@ == key@);
            return i;
        }
        i = i + 1;
    }
    i
}

/// The value of the first entry of `m` whose key is `key`.
pub fn entry_get<'a>(m: &'a Vec<(String, Json)>, key: &str) -> (r: Option<&'a Json>)
    ensures
        r matches Some(v) ==> {
            &&& 0 <= entry_index(m@, key@) < m@.len()
            &&& *v == m@[entry_index(m@, key@)].1
        },
        r is None ==> entry_index(m@, key@) == m@.len(),
        r matches Some(v) ==> entry_value(m@, key@) == Some(*v),
        r is None ==> entry_value(m@, key@) is None,
{
    let i = entry_position(m, key);
    if i < m.len() {
        Some(&m[i].1)
    } else {
        None
    }
}

impl Json {
    /// The member `key` of this value, when it is an object that has one (`Value::get`).
    pub fn get(&self, key: &str) -> (r: Option<&Json>)
        ensures
            r matches Some(v) ==> member(*self, key@) == Some(*v),
            r is None ==> member(*self, key@) is None,
    {
        match self {
            Json::Object(m) => entry_get(m, key),
            _ => None,
        }
    }

    /// The text of this value, when it is a string (`Value::as_str`).
    pub fn as_str(&self) -> (r: Option<&str>)
        ensures
            r matches Some(s) ==> text_of(*self) == Some(s@),
            r is None ==> text_of(*self) is None,
    {
        match self {
            Json::Str(s) => Some(s.as_str()),
            _ => None,
        }
    }
}

/// The member `key` of `v` when it has one, else `v` itself.
pub open spec fn member_or_whole(v: Json, key: Seq<char>) -> Json {
    match member(v, key) {
        Some(d) => d,
        None => v,
    }
}

/// Takes the member `key` out of `v` when it has one, else gives back `v` itself.
pub fn take_member_or_whole(v: Json, key: &str) -> (r: Json)
    ensures
        r == member_or_whole(v, key@),
{
    match v {
        Json::Object(mut m) => {
            let ghost before = m@;
            let i = entry_position(&m, key);
            if i < m.len() {
                let (_, d) = m.remove(i);
                assert(d == before[i as int].1);
                d
            } else {
                Json::Object(m)
            }
        },
        other => other,
    }
}

} // verus!
