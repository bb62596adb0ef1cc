use vstd::prelude::*;
use vstd::string::StringExecFns;

use crate::error::CliError;
use crate::json::{entry_get, entry_index_from, member, text_of, Json};
use crate::text::{lemma_trim_end_char, str_eq, trim_end_char, trim_end_matching};

verus! {

/// Where and as whom requests go.
pub struct ApiClient {
    pub api_key: String,
    pub base_url: String,
    pub storage_url: String,
}

/// The HTTP methods the service is called with.
#[derive(Debug, Clone, Copy, PartialEq, Eq, Structural)]
pub enum Method {
    Get,
    Post,
}

/// One HTTP request, ready to be sent.
#[derive(Debug)]
pub struct HttpRequest {
    pub method: Method,
    pub url: String,
    pub headers: Vec<(String, String)>,
    pub body: Option<Json>,
}

/// `headers` are, in order, the (name, value) pairs of `expected`.
pub open spec fn headers_are(
    headers: Seq<(String, String)>,
    expected: Seq<(Seq<char>, Seq<char>)>,
) -> bool {
    &&& headers.len() == expected.len()
    &&& forall|i: int|
        #![trigger headers[i]]
        0 <= i < headers.len() ==> headers[i].0@ == expected[i].0 && headers[i].1@ == expected[i].1
}

/// `r` is a JSON POST to `url` carrying the API key of `api`.
pub open spec fn is_post_json(r: HttpRequest, api: ApiClient, url: Seq<char>) -> bool {
    &&& r.method == Method::Post
    &&& r.url@ == url
    &&& headers_are(
        r.headers@,
        seq![
            ("accept"@, "application/json"@),
            ("content-type"@, "application/json"@),
            ("x-api-key"@, api.api_key@),
        ],
    )
}

/// `r` is a GET of the JSON document at `url`, carrying the API key of `api`.
pub open spec fn is_get_json(r: HttpRequest, api: ApiClient, url: Seq<char>) -> bool {
    &&& r.method == Method::Get
    &&& r.url@ == url
    &&& r.body is None
    &&& headers_are(
        r.headers@,
        seq![("accept"@, "application/json"@), ("x-api-key"@, api.api_key@)],
    )
}

/// Where the status of task `task_id` is read.
pub open spec fn status_url_of(api: ApiClient, task_id: Seq<char>) -> Seq<char> {
    base_of(api.base_url@) + "/v2/requests/"@ + task_id + "/status"@
}

/// Where the result of task `task_id` is read.
pub open spec fn response_url_of(api: ApiClient, task_id: Seq<char>) -> Seq<char> {
    base_of(api.base_url@) + "/v2/requests/"@ + task_id
}

/// A base URL without its trailing slashes.
pub open spec fn base_of(url: Seq<char>) -> Seq<char> {
    trim_end_char(url, '/')
}

/// An HTTP status in the success class, 200..=299.
pub open spec fn is_success(status: u16) -> bool {
    200 <= status <= 299
}

/// The value a response body stands for: its JSON when it parsed, else `{"raw": body}`.
pub open spec fn body_value(v: Json, body: String, parsed: Option<Json>) -> bool {
    match parsed {
        Some(p) => v == p,
        None => v matches Json::Object(m) && m@.len() == 1 && m@[0].0@ == "raw"@ && m@[0].1
            == Json::Str(body),
    }
}

/// `e` reports an answer with HTTP status `status` and the document of `body`.
pub open spec fn reports_http(e: CliError, status: u16, body: String, parsed: Option<Json>) -> bool {
    e matches CliError::Http { status: s, body: v } && s == status && body_value(v, body, parsed)
}

/// A status document that reports a task as finished, well or badly.
pub open spec fn is_terminal(v: Json) -> bool {
    ||| text_of_member(v, "status"@) == Some("COMPLETED"@)
    ||| text_of_member(v, "status"@) == Some("FAILED"@)
}

/// The text of member `key` of `v`, when it is a string.
pub open spec fn text_of_member(v: Json, key: Seq<char>) -> Option<Seq<char>> {
    match member(v, key) {
        Some(m) => text_of(m),
        None => None,
    }
}

fn header(name: &str, value: &str) -> (r: (String, String))
    ensures
        r.0@ == name@,
        r.1@ == value@,
{
    (name.to_owned(), value.to_owned())
}

impl ApiClient {
    /// A client that sends `api_key` to the API at `base_url` and the storage API at
    /// `storage_url`.
    pub fn new(base_url: String, storage_url: String, api_key: String) -> (r: ApiClient)
        ensures
            r.base_url == base_url,
            r.storage_url == storage_url,
            r.api_key == api_key,
    {
        ApiClient { api_key, base_url, storage_url }
    }

    /// The same client, for a second owner.
    pub fn copy(&self) -> (r: ApiClient)
        ensures
            r == *self,
    {
        ApiClient {
            api_key: self.api_key.clone(),
            base_url: self.base_url.clone(),
            storage_url: self.storage_url.clone(),
        }
    }

    /// Where a task's status is read.
    pub fn status_url(&self, task_id: &str) -> (r: String)
        ensures
            r@ == status_url_of(*self, task_id@),
    {
        let mut r = trim_end_matching(self.base_url.as_str(), '/');
        r.append("/v2/requests/");
        r.append(task_id);
        r.append("/status");
        r
    }

    /// Where a finished task's result is read.
    pub fn response_url(&self, task_id: &str) -> (r: String)
        ensures
            r@ == response_url_of(*self, task_id@),
    {
        let mut r = trim_end_matching(self.base_url.as_str(), '/');
        r.append("/v2/requests/");
        r.append(task_id);
        r
    }

    /// Where a generation job for the model named `slug` is submitted.
    pub fn submit_url(&self, slug: &str) -> (r: String)
        ensures
            r@ == base_of(self.base_url@) + "/v2/"@ + slug@,
    {
        let mut r = trim_end_matching(self.base_url.as_str(), '/');
        r.append("/v2/");
        r.append(slug);
        r
    }

    /// Where local files are uploaded.
    pub fn upload_url(&self) -> (r: String)
        ensures
            r@ == base_of(self.storage_url@) + "/upload-asset"@,
    {
        let mut r = trim_end_matching(self.storage_url.as_str(), '/');
        r.append("/upload-asset");
        r
    }

    /// A JSON POST of `body` to `url`, carrying the API key.
    pub fn post_json_request(&self, url: String, body: Json) -> (r: HttpRequest)
        ensures
            r.url == url,
            r.body == Some(body),
            is_post_json(r, *self, url@),
    {
        let mut headers: Vec<(String, String)> = Vec::new();
        headers.push(header("accept", "application/json"));
        headers.push(header("content-type", "application/json"));
        headers.push(header("x-api-key", self.api_key.as_str()));
        HttpRequest { method: Method::Post, url, headers, body: Some(body) }
    }

    /// A GET of the JSON document at `url`, carrying the API key.
    pub fn get_json_request(&self, url: String) -> (r: HttpRequest)
        ensures
            r.url == url,
            is_get_json(r, *self, url@),
    {
        let mut headers: Vec<(String, String)> = Vec::new();
        headers.push(header("accept", "application/json"));
        headers.push(header("x-api-key", self.api_key.as_str()));
        HttpRequest { method: Method::Get, url, headers, body: None }
    }

    /// The submission of a generation job with `body` to the model named `slug`.
    pub fn submit_request(&self, slug: &str, body: Json) -> (r: HttpRequest)
        ensures
            r.body == Some(body),
            is_post_json(r, *self, base_of(self.base_url@) + "/v2/"@ + slug@),
    {
        let url = self.submit_url(slug);
        self.post_json_request(url, body)
    }
}

/// A GET of `url` with no headers, for the finished video.
pub fn download_request(url: String) -> (r: HttpRequest)
    ensures
        r.method == Method::Get,
        r.url == url,
        r.headers@.len() == 0,
        r.body is None,
{
    HttpRequest { method: Method::Get, url, headers: Vec::new(), body: None }
}

/// Whether an HTTP status is in the success class (`StatusCode::is_success`).
pub fn status_is_success(status: u16) -> (r: bool)
    ensures
        r == is_success(status),
{
    200 <= status && status <= 299
}

fn body_or_raw(body: String, parsed: Option<Json>) -> (r: Json)
    ensures
        body_value(r, body, parsed),
{
    match parsed {
        Some(v) => v,
        None => {
            let mut m: Vec<(String, Json)> = Vec::new();
            m.push(("raw".to_owned(), Json::Str(body)));
            Json::Object(m)
        },
    }
}

/// The document a response carries, refused unless its status is a success.
/// `parsed` is the body read as JSON, or `None` when it is not JSON.
pub fn decode_response(status: u16, body: String, parsed: Option<Json>) -> (r: Result<Json, CliError>)
    ensures
        r is Ok <==> is_success(status),
        r matches Ok(v) ==> body_value(v, body, parsed),
        r matches Err(e) ==> e matches CliError::Http { status: s, body: v } && s == status
            && body_value(v, body, parsed),
{
    let value = body_or_raw(body, parsed);
    if !status_is_success(status) {
        return Err(CliError::Http { status, body: value });
    }
    Ok(value)
}

/// Whether `v` reports a task as COMPLETED or FAILED.
pub fn is_terminal_status(v: &Json) -> (r: bool)
    ensures
        r == is_terminal(*v),
{
    match v.get("status") {
        Some(s) => match s.as_str() {
            Some(t) => str_eq(t, "COMPLETED") || str_eq(t, "FAILED"),
            None => false,
        },
        None => false,
    }
}

/// As `decode_response`, except that a document reporting a finished task (COMPLETED or
/// FAILED) is taken whatever the HTTP status.
pub fn decode_response_terminal_tolerant(status: u16, body: String, parsed: Option<Json>) -> (r:
    Result<Json, CliError>)
    ensures
        r matches Ok(v) ==> body_value(v, body, parsed),
        r matches Err(e) ==> e matches CliError::Http { status: s, body: v } && s == status
            && body_value(v, body, parsed) && !is_terminal(v),
        r is Ok <==> (is_success(status) || (parsed matches Some(p) && is_terminal(p))),
{
    let value = body_or_raw(body, parsed);
    proof {
        if parsed is None {
            reveal_strlit("raw");
            reveal_strlit("status");
            assert("raw"@.len() != "status"@.len());
            let m = value->Object_0;
            assert(m@[0].0@ != "status"@);
            assert(entry_index_from(m@, "status"@, 1) == 1);
            assert(member(value, "status"@) is None);
        }
    }
    if is_terminal_status(&value) {
        return Ok(value);
    }
    if !status_is_success(status) {
        return Err(CliError::Http { status, body: value });
    }
    Ok(value)
}

/// What the service answers to a submitted job.
#[derive(Debug)]
pub struct SubmitResponse {
    pub request_id: String,
    pub status_url: String,
    pub response_url: String,
    /// Every other member of the answer, in order.
    pub extra: Vec<(String, Json)>,
}

/// The members of a submit answer that have fields of their own.
pub open spec fn is_submit_field(k: Seq<char>) -> bool {
    k == "request_id"@ || k == "status_url"@ || k == "response_url"@
}

/// The entries of `m` that are not submit fields, in order.
pub open spec fn extra_entries(m: Seq<(String, Json)>) -> Seq<(String, Json)>
    decreases m.len(),
{
    if m.len() == 0 {
        m
    } else {
        let rest = extra_entries(m.drop_last());
        if is_submit_field(m.last().0@) {
            rest
        } else {
            rest.push(m.last())
        }
    }
}

fn text_member(m: &Vec<(String, Json)>, key: &str) -> (r: Option<String>)
    ensures
        r.deep_view() == text_of_member(Json::Object(*m), key@),
{
    match entry_get(m, key) {
        Some(v) => match v.as_str() {
            Some(t) => Some(t.to_owned()),
            None => None,
        },
        None => None,
    }
}

impl SubmitResponse {
    /// Reads a submit answer: `request_id`, `status_url` and `response_url` must be strings;
    /// every other member is kept in `extra`.
    pub fn from_json(value: Json) -> (r: Result<SubmitResponse, CliError>)
        ensures
            r is Ok <==> {
                &&& text_of_member(value, "request_id"@) is Some
                &&& text_of_member(value, "status_url"@) is Some
                &&& text_of_member(value, "response_url"@) is Some
            },
            r matches Ok(s) ==> {
                &&& text_of_member(value, "request_id"@) == Some(s.request_id@)
                &&& text_of_member(value, "status_url"@) == Some(s.status_url@)
                &&& text_of_member(value, "response_url"@) == Some(s.response_url@)
                &&& value matches Json::Object(m) && s.extra@ == extra_entries(m@)
            },
            r matches Err(e) ==> e is BadSubmitResponse,
    {
        match value {
            Json::Object(m) => {
                let request_id = text_member(&m, "request_id");
                let status_url = text_member(&m, "status_url");
                let response_url = text_member(&m, "response_url");
                match (request_id, status_url, response_url) {
                    (Some(request_id), Some(status_url), Some(response_url)) => {
                        let ghost entries = m@;
                        let mut extra: Vec<(String, Json)> = Vec::new();
                        for e in it: m.into_iter()
                            invariant
                                it.seq() == entries,
                                extra@ == extra_entries(it.seq().take(it.index() as int)),
                        {
                            let ghost i = it.index();
                            assert(entries.take(i + 1).drop_last() =~= entries.take(i as int));
                            let (k, v) = e;
                            if !(str_eq(k.as_str(), "request_id") || str_eq(k.as_str(), "status_url")
                                || str_eq(k.as_str(), "response_url")) {
                                extra.push((k, v));
                            }
                        }
                        assert(entries.take(entries.len() as int) =~= entries);
                        Ok(SubmitResponse { request_id, status_url, response_url, extra })
                    },
                    _ => Err(CliError::BadSubmitResponse),
                }
            },
            _ => Err(CliError::BadSubmitResponse),
        }
    }

    /// The answer as a document again: its three fields, then the other members.
    pub fn into_json(self) -> (r: Json)
        ensures
            r matches Json::Object(m) && {
                &&& m@.len() == 3 + self.extra@.len()
                &&& m@[0].0@ == "request_id"@ && m@[0].1 == Json::Str(self.request_id)
                &&& m@[1].0@ == "status_url"@ && m@[1].1 == Json::Str(self.status_url)
                &&& m@[2].0@ == "response_url"@ && m@[2].1 == Json::Str(self.response_url)
                &&& m@.subrange(3, m@.len() as int) == self.extra@
            },
    {
        let SubmitResponse { request_id, status_url, response_url, extra } = self;
        let mut m: Vec<(String, Json)> = Vec::new();
        m.push(("request_id".to_owned(), Json::Str(request_id)));
        m.push(("status_url".to_owned(), Json::Str(status_url)));
        m.push(("response_url".to_owned(), Json::Str(response_url)));
        let ghost rest = extra@;
        for e in it: extra.into_iter()
            invariant
                it.seq() == rest,
                m@.len() == 3 + it.index(),
                m@.subrange(3, m@.len() as int) == rest.take(it.index() as int),
                m@[0].0@ == "request_id"@ && m@[0].1 == Json::Str(request_id),
                m@[1].0@ == "status_url"@ && m@[1].1 == Json::Str(status_url),
                m@[2].0@ == "response_url"@ && m@[2].1 == Json::Str(response_url),
        {
            let ghost i = it.index();
            m.push(e);
            assert(m@.subrange(3, m@.len() as int) =~= rest.take(i + 1));
        }
        assert(rest.take(rest.len() as int) =~= rest);
        Json::Object(m)
    }
}

/// Law: a base URL given with one more trailing slash names the same endpoints.
pub proof fn lemma_base_ignores_trailing_slash(url: Seq<char>)
    ensures
        base_of(url.push('/')) == base_of(url),
        base_of(url).len() == 0 || base_of(url).last() != '/',
{
    lemma_trim_end_char(url, '/');
}

proof fn lemma_extra_entries_keeps(m: Seq<(String, Json)>)
    requires
        forall|i: int| #![trigger m[i]] 0 <= i < m.len() ==> !is_submit_field(m[i].0@),
    ensures
        extra_entries(m) == m,
    decreases m.len(),
{
    if m.len() > 0 {
        lemma_extra_entries_keeps(m.drop_last());
        assert(m.drop_last().push(m.last()) =~= m);
    }
}

proof fn lemma_extra_entries_skips_fields(head: Seq<(String, Json)>, rest: Seq<(String, Json)>)
    requires
        forall|i: int| #![trigger head[i]] 0 <= i < head.len() ==> is_submit_field(head[i].0@),
    ensures
        extra_entries(head + rest) == extra_entries(rest),
    decreases rest.len(),
{
    if rest.len() == 0 {
        assert(head + rest =~= head);
        lemma_extra_entries_all_fields(head);
    } else {
        lemma_extra_entries_skips_fields(head, rest.drop_last());
        assert((head + rest).drop_last() =~= head + rest.drop_last());
    }
}

proof fn lemma_extra_entries_all_fields(head: Seq<(String, Json)>)
    requires
        forall|i: int| #![trigger head[i]] 0 <= i < head.len() ==> is_submit_field(head[i].0@),
    ensures
        extra_entries(head).len() == 0,
    decreases head.len(),
{
    if head.len() > 0 {
        lemma_extra_entries_all_fields(head.drop_last());
    }
}

/// Law: reading back the document that `SubmitResponse::into_json` writes gives the same
/// response, provided no extra member is named like one of the three fields.
pub proof fn lemma_submit_round_trip(v: Json, s: SubmitResponse)
    requires
        forall|i: int|
            #![trigger s.extra@[i]]
            0 <= i < s.extra@.len() ==> !is_submit_field(s.extra@[i].0@),
        v matches Json::Object(m) && {
            &&& m@.len() == 3 + s.extra@.len()
            &&& m@[0].0@ == "request_id"@ && m@[0].1 == Json::Str(s.request_id)
            &&& m@[1].0@ == "status_url"@ && m@[1].1 == Json::Str(s.status_url)
            &&& m@[2].0@ == "response_url"@ && m@[2].1 == Json::Str(s.response_url)
            &&& m@.subrange(3, m@.len() as int) == s.extra@
        },
    ensures
        text_of_member(v, "request_id"@) == Some(s.request_id@),
        text_of_member(v, "status_url"@) == Some(s.status_url@),
        text_of_member(v, "response_url"@) == Some(s.response_url@),
        v matches Json::Object(m) && extra_entries(m@) == s.extra@,
{
    reveal_strlit("request_id");
    reveal_strlit("status_url");
    reveal_strlit("response_url");
    let m = v->Object_0@;
    assert("request_id"@ != "status_url"@) by {
        assert("request_id"@[0] != "status_url"@[0]);
    }
    assert("request_id"@ != "response_url"@) by {
        assert("request_id"@[2] != "response_url"@[2]);
    }
    assert("status_url"@ != "response_url"@) by {
        assert("status_url"@[0] != "response_url"@[0]);
    }
    assert(entry_index_from(m, "request_id"@, 0) == 0);
    assert(entry_index_from(m, "status_url"@, 1) == 1);
    assert(entry_index_from(m, "status_url"@, 0) == 1);
    assert(entry_index_from(m, "response_url"@, 2) == 2);
    assert(entry_index_from(m, "response_url"@, 1) == 2);
    assert(entry_index_from(m, "response_url"@, 0) == 2);
    let head = m.subrange(0, 3);
    assert(m =~= head + s.extra@);
    lemma_extra_entries_skips_fields(head, s.extra@);
    lemma_extra_entries_keeps(s.extra@);
}

} // verus!
