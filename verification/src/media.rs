use vstd::prelude::*;

use crate::error::CliError;
use crate::json::{entry_get, entry_index, member, text_of, Json};
use crate::text::{contains_ignore_ascii_case, lower_seq, occurs_in, starts_with};

verus! {

/// A reference that is handed to the service as it is: an http(s) URL or a data URL.
pub open spec fn is_remote(s: Seq<char>) -> bool {
    ||| "http://"@.is_prefix_of(s)
    ||| "https://"@.is_prefix_of(s)
    ||| "data:"@.is_prefix_of(s)
}

/// An http(s) URL whose text, ignoring ASCII case, names a video container.
pub open spec fn is_downloadable(s: Seq<char>) -> bool {
    &&& ("http://"@.is_prefix_of(s) || "https://"@.is_prefix_of(s))
    &&& {
        let l = lower_seq(s);
        ||| occurs_in(l, ".mp4"@)
        ||| occurs_in(l, ".mov"@)
        ||| occurs_in(l, ".webm"@)
        ||| occurs_in(l, ".mkv"@)
        ||| occurs_in(l, ".avi"@)
    }
}

/// How many keys an object is searched by first.
pub open spec fn preferred_count() -> int {
    6
}

/// The keys an object is searched by first, in order.
pub open spec fn preferred_key(k: int) -> Seq<char> {
    if k == 0 {
        "video"@
    } else if k == 1 {
        "video_url"@
    } else if k == 2 {
        "url"@
    } else if k == 3 {
        "output"@
    } else if k == 4 {
        "result"@
    } else {
        "file_url"@
    }
}

/// The first downloadable URL in `v`: a string is itself or nothing; an array is searched
/// element by element; an object is searched under the preferred keys in order, then
/// entry by entry.
pub open spec fn find_media(v: Json) -> Option<Seq<char>>
    decreases v, 0int,
{
    match v {
        Json::Str(s) => if is_downloadable(s@) {
            Some(s@)
        } else {
            None
        },
        Json::Array(vs) => find_media_in(vs@, 0),
        Json::Object(m) => find_media_preferred(m@, 0),
        _ => None,
    }
}

/// The first downloadable URL among `vs[i..]`.
pub open spec fn find_media_in(vs: Seq<Json>, i: int) -> Option<Seq<char>>
    decreases vs, vs.len() - i,
{
    if 0 <= i < vs.len() {
        match find_media(vs[i]) {
            Some(u) => Some(u),
            None => find_media_in(vs, i + 1),
        }
    } else {
        None
    }
}

/// The first downloadable URL under the preferred keys from `k` on, else among all entries.
pub open spec fn find_media_preferred(m: Seq<(String, Json)>, k: int) -> Option<Seq<char>>
    decreases m, m.len() + 7 - k,
{
    if 0 <= k < preferred_count() {
        let j = entry_index(m, preferred_key(k));
        let found = if 0 <= j < m.len() {
            find_media(m[j].1)
        } else {
            None
        };
        match found {
            Some(u) => Some(u),
            None => find_media_preferred(m, k + 1),
        }
    } else if k == preferred_count() {
        find_media_entries(m, 0)
    } else {
        None
    }
}

/// The first downloadable URL among the values of `m[i..]`.
pub open spec fn find_media_entries(m: Seq<(String, Json)>, i: int) -> Option<Seq<char>>
    decreases m, m.len() - i,
{
    if 0 <= i < m.len() {
        match find_media(m[i].1) {
            Some(u) => Some(u),
            None => find_media_entries(m, i + 1),
        }
    } else {
        None
    }
}

/// Whether `s` is handed to the service unchanged (`http://`, `https://` or `data:`).
pub fn is_remote_ref(value: &str) -> (r: bool)
    ensures
        r == is_remote(value@),
{
    starts_with(value, "http://") || starts_with(value, "https://") || starts_with(value, "data:")
}

/// Whether `s` is an http(s) URL that names a video container, ignoring ASCII case.
pub fn is_downloadable_url(s: &str) -> (r: bool)
    ensures
        r == is_downloadable(s@),
{
    (starts_with(s, "http://") || starts_with(s, "https://")) && (contains_ignore_ascii_case(
        s,
        ".mp4",
    ) || contains_ignore_ascii_case(s, ".mov") || contains_ignore_ascii_case(s, ".webm")
        || contains_ignore_ascii_case(s, ".mkv") || contains_ignore_ascii_case(s, ".avi"))
}

fn preferred_key_str(k: usize) -> (r: &'static str)
    requires
        k < preferred_count(),
    ensures
        r@ == preferred_key(k as int),
{
    if k == 0 {
        "video"
    } else if k == 1 {
        "video_url"
    } else if k == 2 {
        "url"
    } else if k == 3 {
        "output"
    } else if k == 4 {
        "result"
    } else {
        "file_url"
    }
}

/// The first downloadable URL in `value`, searched as `find_media` says.
#[verifier::loop_isolation(false)]
pub fn find_media_url(value: &Json) -> (r: Option<String>)
    ensures
        r.deep_view() == find_media(*value),
    decreases value,
{
    match value {
        Json::Str(s) => {
            if is_downloadable_url(s.as_str()) {
                Some(s.clone())
            } else {
                None
            }
        },
        Json::Array(vs) => {
            let mut i: usize = 0;
            while i < vs.len()
                invariant
                    i <= vs.len(),
                    find_media_in(vs@, 0) == find_media_in(vs@, i as int),
                decreases vs.len() - i,
            {
                let found = find_media_url(&vs[i]);
                if found.is_some() {
                    return found;
                }
                i = i + 1;
            }
            None
        },
        Json::Object(m) => {
            let mut k: usize = 0;
            while k < 6
                invariant
                    k <= 6,
                    find_media_preferred(m@, 0) == find_media_preferred(m@, k as int),
                decreases 6 - k,
            {
                let key = preferred_key_str(k);
                match entry_get(m, key) {
                    Some(v) => {
                        let found = find_media_url(v);
                        if found.is_some() {
                            return found;
                        }
                    },
                    None => {},
                }
                k = k + 1;
            }
            let mut i: usize = 0;
            while i < m.len()
                invariant
                    i <= m.len(),
                    find_media_preferred(m@, 0) == find_media_entries(m@, i as int),
                decreases m.len() - i,
            {
                let found = find_media_url(&m[i].1);
                if found.is_some() {
                    return found;
                }
                i = i + 1;
            }
            None
        },
        _ => None,
    }
}

/// The output URL of a finished task: searched under `output` when the result has that
/// member, else in the whole result.
pub open spec fn output_url(result: Json) -> Option<Seq<char>> {
    match member(result, "output"@) {
        Some(o) => find_media(o),
        None => find_media(result),
    }
}

/// The URL an upload answer gives: the first element of `file_urls` when it is a string,
/// else the string under `url`.
pub open spec fn uploaded_url(v: Json) -> Option<Seq<char>> {
    let listed = match member(v, "file_urls"@) {
        Some(Json::Array(a)) => if a@.len() > 0 {
            text_of(a@[0])
        } else {
            None
        },
        _ => None,
    };
    match listed {
        Some(u) => Some(u),
        None => match member(v, "url"@) {
            Some(u) => text_of(u),
            None => None,
        },
    }
}

/// The downloadable output URL of a finished task's result.
pub fn extract_output_url(result: &Json) -> (r: Option<String>)
    ensures
        r.deep_view() == output_url(*result),
{
    match result.get("output") {
        Some(output) => find_media_url(output),
        None => find_media_url(result),
    }
}

/// The downloadable output URL of a finished task's result; refused when it has none.
pub fn require_output_url(result: &Json) -> (r: Result<String, CliError>)
    ensures
        r matches Ok(u) ==> output_url(*result) == Some(u@),
        r is Err <==> output_url(*result) is None,
        r matches Err(e) ==> e is MissingOutputUrl,
{
    match extract_output_url(result) {
        Some(u) => Ok(u),
        None => Err(CliError::MissingOutputUrl),
    }
}

/// The file URL in the storage service's answer to an upload.
pub fn first_uploaded_url(value: &Json) -> (r: Option<String>)
    ensures
        r.deep_view() == uploaded_url(*value),
{
    let listed: Option<&str> = match value.get("file_urls") {
        Some(Json::Array(a)) => {
            if a.len() > 0 {
                a[0].as_str()
            } else {
                None
            }
        },
        _ => None,
    };
    match listed {
        Some(u) => Some(u.to_owned()),
        None => match value.get("url") {
            Some(u) => match u.as_str() {
                Some(t) => Some(t.to_owned()),
                None => None,
            },
            None => None,
        },
    }
}

/// `u` is the text of a string somewhere inside `v` (object keys do not count).
pub open spec fn has_leaf(v: Json, u: Seq<char>) -> bool
    decreases v,
{
    match v {
        Json::Str(s) => s@ == u,
        Json::Array(vs) => exists|i: int| #![trigger vs@[i]] 0 <= i < vs@.len() && has_leaf(vs@[i], u),
        Json::Object(m) => exists|i: int| #![trigger m@[i]] 0 <= i < m@.len() && has_leaf(m@[i].1, u),
        _ => false,
    }
}

/// Some string somewhere inside `v` is a downloadable URL.
pub open spec fn has_media(v: Json) -> bool
    decreases v,
{
    match v {
        Json::Str(s) => is_downloadable(s@),
        Json::Array(vs) => exists|i: int| #![trigger vs@[i]] 0 <= i < vs@.len() && has_media(vs@[i]),
        Json::Object(m) => exists|i: int| #![trigger m@[i]] 0 <= i < m@.len() && has_media(m@[i].1),
        _ => false,
    }
}

/// What a search gives: a downloadable URL that stands in `v`.
pub open spec fn found_in(v: Json, r: Option<Seq<char>>) -> bool {
    r matches Some(u) ==> is_downloadable(u) && has_leaf(v, u)
}

proof fn lemma_find_media_value(v: Json)
    ensures
        found_in(v, find_media(v)),
        find_media(v) is None <==> !has_media(v),
    decreases v, 0int,
{
    match v {
        Json::Array(vs) => {
            lemma_find_media_in(vs@, 0);
            if let Some(u) = find_media(v) {
                let i = choose|i: int| #![trigger vs@[i]] 0 <= i < vs@.len() && has_leaf(vs@[i], u);
                assert(has_leaf(vs@[i], u));
            }
            if has_media(v) {
                let i = choose|i: int| #![trigger vs@[i]] 0 <= i < vs@.len() && has_media(vs@[i]);
                assert(has_media(vs@[i]));
            }
        },
        Json::Object(m) => {
            lemma_find_media_preferred(m@, 0);
            if let Some(u) = find_media(v) {
                let i = choose|i: int| #![trigger m@[i]] 0 <= i < m@.len() && has_leaf(m@[i].1, u);
                assert(has_leaf(m@[i].1, u));
            }
            if has_media(v) {
                let i = choose|i: int| #![trigger m@[i]] 0 <= i < m@.len() && has_media(m@[i].1);
                assert(has_media(m@[i].1));
            }
        },
        _ => {},
    }
}

proof fn lemma_find_media_in(vs: Seq<Json>, i: int)
    requires
        0 <= i <= vs.len(),
    ensures
        find_media_in(vs, i) matches Some(u) ==> is_downloadable(u) && exists|j: int|
            #![trigger vs[j]] i <= j < vs.len() && has_leaf(vs[j], u),
        find_media_in(vs, i) is None <==> forall|j: int| #![trigger vs[j]] i <= j < vs.len() ==> !has_media(vs[j]),
    decreases vs, vs.len() - i,
{
    if i < vs.len() {
        lemma_find_media_value(vs[i]);
        lemma_find_media_in(vs, i + 1);
        if let Some(u) = find_media(vs[i]) {
            assert(has_leaf(vs[i], u));
        }
        if find_media_in(vs, i) is None {
            assert forall|j: int| #![trigger vs[j]] i <= j < vs.len() implies !has_media(vs[j]) by {
                if j > i {
                }
            }
        }
    }
}

proof fn lemma_find_media_entries(m: Seq<(String, Json)>, i: int)
    requires
        0 <= i <= m.len(),
    ensures
        find_media_entries(m, i) matches Some(u) ==> is_downloadable(u) && exists|j: int|
            #![trigger m[j]] i <= j < m.len() && has_leaf(m[j].1, u),
        find_media_entries(m, i) is None <==> forall|j: int|
            #![trigger m[j]] i <= j < m.len() ==> !has_media(m[j].1),
    decreases m, m.len() - i,
{
    if i < m.len() {
        lemma_find_media_value(m[i].1);
        lemma_find_media_entries(m, i + 1);
        if let Some(u) = find_media(m[i].1) {
            assert(has_leaf(m[i].1, u));
        }
        if find_media_entries(m, i) is None {
            assert forall|j: int| #![trigger m[j]] i <= j < m.len() implies !has_media(m[j].1) by {
                if j > i {
                }
            }
        }
    }
}

proof fn lemma_find_media_preferred(m: Seq<(String, Json)>, k: int)
    requires
        0 <= k <= preferred_count(),
    ensures
        find_media_preferred(m, k) matches Some(u) ==> is_downloadable(u) && exists|j: int|
            #![trigger m[j]] 0 <= j < m.len() && has_leaf(m[j].1, u),
        find_media_preferred(m, k) is None <==> forall|j: int|
            #![trigger m[j]] 0 <= j < m.len() ==> !has_media(m[j].1),
    decreases m, m.len() + 7 - k,
{
    if k < preferred_count() {
        let j = entry_index(m, preferred_key(k));
        lemma_find_media_preferred(m, k + 1);
        if 0 <= j < m.len() {
            lemma_find_media_value(m[j].1);
            if let Some(u) = find_media(m[j].1) {
                assert(has_leaf(m[j].1, u));
            } else {
            }
        }
    } else {
        lemma_find_media_entries(m, 0);
    }
}

/// Law: a search for the media URL gives a downloadable URL that stands in the value, and
/// gives nothing only when no string in the value is a downloadable URL.
pub proof fn lemma_find_media_sound_and_complete(v: Json)
    ensures
        find_media(v) matches Some(u) ==> is_downloadable(u) && has_leaf(v, u),
        find_media(v) is None <==> !has_media(v),
{
    lemma_find_media_value(v);
}

} // verus!
