use vstd::prelude::*;

use crate::api::{
    base_of, body_value, decode_response, reports_http, decode_response_terminal_tolerant, extra_entries,
    is_get_json, is_post_json, is_success, is_terminal, response_url_of, status_url_of,
    text_of_member, ApiClient, HttpRequest, SubmitResponse,
};
use crate::args::{
    first_generate_error, generate_valid, reports_too_many, resolve_model, resolved_model,
    validate_count,
    validate_generate, GenerateArgs, MAX_AUDIOS, MAX_IMAGES, MAX_VIDEOS,
};
use crate::body::{
    generate_request_body, generate_summary, is_generate_body, is_generate_summary,
    is_upload_summary, is_wait_summary, upload_summary, wait_summary,
};
use crate::error::CliError;
use crate::json::{entry_index, entry_index_from, member, member_or_whole, text_of, Json};
use crate::media::{
    find_media, find_media_entries, find_media_preferred, is_downloadable, is_remote,
    is_remote_ref, output_url, preferred_key, require_output_url, uploaded_url,
};
use crate::model::{model_slug, Model};
use crate::poll::{effective_interval, next_poll_step, timed_out, PollStep};
use crate::upload::{
    base64_standard, data_url_text, file_to_data_url, is_upload_request, mime_for_path, mime_of, path_mime_fits,
    uploaded_url_for,
};

verus! {

/// The references of a request: image, video and audio references and the two frames.
pub struct References {
    pub images: Vec<String>,
    pub videos: Vec<String>,
    pub audios: Vec<String>,
    pub first_frame: Option<String>,
    pub last_frame: Option<String>,
}

/// What a session is for.
pub enum Goal {
    /// `generate`: upload the references, submit the job, wait, download, report.
    Generate { args: GenerateArgs, model: Model, raw: bool },
    /// `upload`: upload the references and report their URLs.
    Upload,
    /// `task wait`: wait for a task, download its output when `out` is given, report.
    Wait {
        task_id: String,
        out: Option<String>,
        raw: bool,
        max_wait_secs: u64,
        poll_interval_secs: u64,
    },
}

/// Where a session stands, and what it waits for.
pub enum Phase {
    /// Waiting to hear that the local reference `path` exists and is a file.
    Checking { path: String },
    /// Waiting for the contents of the local reference `path`, of media type `mime`.
    Reading { path: String, mime: &'static str },
    /// Waiting for the storage service's answer to the upload of `path`.
    Uploading { path: String },
    /// Waiting for the answer to the submitted job.
    Submitting,
    /// Waiting for the status of task `task_id`, whose wait began at `started`.
    Polling { task_id: String, started: u128 },
    /// Waiting out the pause between two status reads.
    Sleeping { task_id: String, started: u128 },
    /// Waiting for the result of the finished task `task_id`.
    Fetching { task_id: String },
    /// Waiting for the output at `url` to be saved to `out`.
    Downloading { task_id: String, url: String, out: String, result: Json },
    /// Nothing more to do.
    Finished,
}

/// What the caller is asked to do next.
#[derive(Debug)]
pub enum Action {
    /// Make sure the local reference `path` exists and is a file.
    CheckFile { path: String },
    /// Read the local reference `path`.
    ReadFile { path: String },
    /// Send `request` and report the answer.
    Send { request: HttpRequest },
    /// Wait `secs` seconds.
    Sleep { secs: u64 },
    /// Save what `url` serves to the file `out`.
    Download { url: String, out: String },
    /// Print `value`; the session is over.
    Print { value: Json },
}

/// What the caller reports back.
pub enum Event {
    /// The file asked about exists and is a file.
    FileChecked,
    /// The file asked for holds `bytes`.
    FileRead { bytes: Vec<u8> },
    /// The request sent was answered; `clock_nanos` is a monotonic clock read after it.
    Replied { status: u16, body: String, parsed: Option<Json>, clock_nanos: u128 },
    /// The pause is over.
    Slept,
    /// The output was saved.
    Downloaded,
}

/// A command that alternates between work for the caller and decisions of its own.
pub struct Session {
    pub api: ApiClient,
    pub goal: Goal,
    /// The references as given.
    pub sources: References,
    /// The URLs of the references handled so far.
    pub resolved: References,
    /// Which kind of reference is being handled: images, videos, audios, first frame, last
    /// frame; 5 once all are.
    pub stage: usize,
    pub phase: Phase,
    /// The task waited on, once there is one.
    pub task: Option<String>,
}

/// `res` is a prefix-wise handling of `src`: no longer, and a remote reference is kept as it is.
pub open spec fn prefix_ok(src: Seq<String>, res: Seq<String>) -> bool {
    &&& res.len() <= src.len()
    &&& forall|k: int|
        #![trigger res[k]]
        0 <= k < res.len() && is_remote(src[k]@) ==> res[k]@ == src[k]@
}

/// A handled frame comes from a given one, kept as it is when remote.
pub open spec fn frame_ok(src: Option<String>, res: Option<String>) -> bool {
    match res {
        Some(u) => src matches Some(p) && (is_remote(p@) ==> u@ == p@),
        None => true,
    }
}

/// The reference being handled, if any.
pub open spec fn current_reference(s: References, r: References, stage: int) -> Option<String> {
    if stage == 0 && r.images@.len() < s.images@.len() {
        Some(s.images@[r.images@.len() as int])
    } else if stage == 1 && r.videos@.len() < s.videos@.len() {
        Some(s.videos@[r.videos@.len() as int])
    } else if stage == 2 && r.audios@.len() < s.audios@.len() {
        Some(s.audios@[r.audios@.len() as int])
    } else if stage == 3 && r.first_frame is None {
        s.first_frame
    } else if stage == 4 && r.last_frame is None {
        s.last_frame
    } else {
        None
    }
}

/// How far the references are handled.
pub open spec fn references_ok(s: References, r: References, stage: int) -> bool {
    &&& 0 <= stage <= 5
    &&& prefix_ok(s.images@, r.images@)
    &&& prefix_ok(s.videos@, r.videos@)
    &&& prefix_ok(s.audios@, r.audios@)
    &&& frame_ok(s.first_frame, r.first_frame)
    &&& frame_ok(s.last_frame, r.last_frame)
    &&& (stage > 0 ==> r.images@.len() == s.images@.len())
    &&& (stage > 1 ==> r.videos@.len() == s.videos@.len())
    &&& (stage > 2 ==> r.audios@.len() == s.audios@.len())
    &&& (stage > 3 ==> (r.first_frame is Some <==> s.first_frame is Some))
    &&& (stage > 4 ==> (r.last_frame is Some <==> s.last_frame is Some))
    &&& (stage < 1 ==> r.videos@.len() == 0)
    &&& (stage < 2 ==> r.audios@.len() == 0)
    &&& (stage < 3 ==> r.first_frame is None)
    &&& (stage < 4 ==> r.last_frame is None)
}

impl Session {
    /// The session's invariant.
    pub open spec fn wf(self) -> bool {
        &&& references_ok(self.sources, self.resolved, self.stage as int)
        &&& match self.goal {
            Goal::Generate { args, model, .. } => {
                &&& resolved_model(args.model, args.speed) == Some(model)
                &&& generate_valid(args, model)
                &&& self.sources.images@ == args.images@
                &&& self.sources.videos@ == args.videos@
                &&& self.sources.audios@ == args.audios@
                &&& self.sources.first_frame == args.first_frame
                &&& self.sources.last_frame == args.last_frame
            },
            _ => true,
        }
        &&& match self.phase {
            Phase::Checking { path } | Phase::Reading { path, .. } | Phase::Uploading { path } => {
                &&& current_reference(self.sources, self.resolved, self.stage as int) == Some(path)
                &&& !is_remote(path@)
                &&& !(self.goal is Wait)
            },
            Phase::Submitting => self.goal is Generate && self.stage == 5,
            Phase::Polling { task_id, .. } | Phase::Sleeping { task_id, .. } | Phase::Fetching {
                task_id,
            } => self.waits_on(task_id),
            Phase::Downloading { task_id, url, out, result } => {
                &&& self.waits_on(task_id)
                &&& output_url(result) == Some(url@)
                &&& self.out_path() == Some(out)
            },
            Phase::Finished => true,
        }
        &&& (self.goal is Generate && (self.phase is Checking || self.phase is Reading
            || self.phase is Uploading || self.phase is Submitting) ==> self.task is None)
        &&& (self.goal matches Goal::Wait { task_id, .. } ==> self.task == Some(task_id))
    }

    /// The session waits on task `task_id`, with every reference handled.
    pub open spec fn waits_on(self, task_id: String) -> bool {
        &&& self.task == Some(task_id)
        &&& self.stage == 5
        &&& !(self.goal is Upload)
    }

    /// The session waits for `event`.
    pub open spec fn awaits(self, event: Event) -> bool {
        match self.phase {
            Phase::Checking { .. } => event is FileChecked,
            Phase::Reading { .. } => event is FileRead,
            Phase::Uploading { .. } | Phase::Submitting | Phase::Polling { .. }
            | Phase::Fetching { .. } => event is Replied,
            Phase::Sleeping { .. } => event is Slept,
            Phase::Downloading { .. } => event is Downloaded,
            Phase::Finished => false,
        }
    }

    /// The phase fits the action just asked for.
    pub open spec fn asked(self, action: Action) -> bool {
        match action {
            Action::CheckFile { path } => self.phase matches Phase::Checking { path: p } && p == path,
            Action::ReadFile { path } => self.phase matches Phase::Reading { path: p, .. } && p
                == path,
            Action::Send { request } => match self.phase {
                Phase::Uploading { .. } => is_post_json(
                    request,
                    self.api,
                    base_of(self.api.storage_url@) + "/upload-asset"@,
                ),
                Phase::Submitting => self.goal matches Goal::Generate { args, model, .. } && {
                    &&& is_post_json(
                        request,
                        self.api,
                        base_of(self.api.base_url@) + "/v2/"@ + model_slug(model),
                    )
                    &&& request.body matches Some(b) && is_generate_body(
                        b,
                        args,
                        self.resolved.images@,
                        self.resolved.videos@,
                        self.resolved.audios@,
                        self.resolved.first_frame,
                        self.resolved.last_frame,
                    )
                },
                Phase::Polling { task_id, .. } => is_get_json(
                    request,
                    self.api,
                    status_url_of(self.api, task_id@),
                ),
                Phase::Fetching { task_id } => is_get_json(
                    request,
                    self.api,
                    response_url_of(self.api, task_id@),
                ),
                _ => false,
            },
            Action::Sleep { secs } => self.phase is Sleeping && secs == effective_interval(
                self.limits().1,
            ),
            Action::Download { url, out } => self.phase matches Phase::Downloading {
                url: u,
                out: o,
                ..
            } && u == url && o == out,
            Action::Print { .. } => self.phase is Finished,
        }
    }
}

/// The text of member `key` of a reply's document; a reply that is not JSON has none.
pub open spec fn reply_text(parsed: Option<Json>, key: Seq<char>) -> Option<Seq<char>> {
    match parsed {
        Some(p) => text_of_member(p, key),
        None => None,
    }
}

/// A reply whose document reports a finished task.
pub open spec fn reply_is_terminal(parsed: Option<Json>) -> bool {
    parsed matches Some(p) && is_terminal(p)
}

/// The file URL in a reply to an upload; a reply that is not JSON has none.
pub open spec fn reply_uploaded_url(parsed: Option<Json>) -> Option<Seq<char>> {
    match parsed {
        Some(p) => uploaded_url(p),
        None => None,
    }
}

/// The output URL in a reply with a task's result; a reply that is not JSON is searched as
/// the one string it is.
pub open spec fn reply_output_url(body: Seq<char>, parsed: Option<Json>) -> Option<Seq<char>> {
    match parsed {
        Some(p) => output_url(p),
        None => if is_downloadable(body) {
            Some(body)
        } else {
            None
        },
    }
}

proof fn lemma_raw_lookup(m: Seq<(String, Json)>, key: Seq<char>)
    requires
        m.len() == 1,
        m[0].0@ == "raw"@,
        key != "raw"@,
    ensures
        entry_index(m, key) == 1,
{
    assert(entry_index_from(m, key, 1) == 1);
}

/// What the library reads from the `{"raw": body}` document that stands for a reply that is
/// not JSON.
proof fn lemma_raw_reply(v: Json, body: String)
    requires
        v matches Json::Object(m) && m@.len() == 1 && m@[0].0@ == "raw"@ && m@[0].1 == Json::Str(body),
    ensures
        text_of_member(v, "status"@) is None,
        text_of_member(v, "request_id"@) is None,
        text_of_member(v, "status_url"@) is None,
        text_of_member(v, "response_url"@) is None,
        !is_terminal(v),
        uploaded_url(v) is None,
        output_url(v) == reply_output_url(body@, None),
{
    let m = v->Object_0@;
    reveal_strlit("raw");
    reveal_strlit("status");
    reveal_strlit("request_id");
    reveal_strlit("status_url");
    reveal_strlit("response_url");
    reveal_strlit("file_urls");
    reveal_strlit("url");
    reveal_strlit("output");
    reveal_strlit("video");
    reveal_strlit("video_url");
    reveal_strlit("result");
    reveal_strlit("file_url");
    assert("raw"@ != "url"@) by {
        assert("raw"@[0] != "url"@[0]);
    }
    assert("raw"@.len() != "status"@.len());
    assert("raw"@.len() != "request_id"@.len());
    lemma_raw_lookup(m, "status"@);
    lemma_raw_lookup(m, "request_id"@);
    lemma_raw_lookup(m, "status_url"@);
    lemma_raw_lookup(m, "response_url"@);
    lemma_raw_lookup(m, "file_urls"@);
    lemma_raw_lookup(m, "url"@);
    lemma_raw_lookup(m, "output"@);
    lemma_raw_lookup(m, "video"@);
    lemma_raw_lookup(m, "video_url"@);
    lemma_raw_lookup(m, "result"@);
    lemma_raw_lookup(m, "file_url"@);
    assert(member(v, "output"@) is None);
    assert(find_media_entries(m, 1) is None);
    assert(find_media_entries(m, 0) == find_media(m[0].1));
    assert(find_media_preferred(m, 6) == find_media_entries(m, 0));
    assert(preferred_key(5) == "file_url"@);
    assert(find_media_preferred(m, 5) == find_media_preferred(m, 6));
    assert(find_media_preferred(m, 4) == find_media_preferred(m, 5));
    assert(find_media_preferred(m, 3) == find_media_preferred(m, 4));
    assert(find_media_preferred(m, 2) == find_media_preferred(m, 3));
    assert(find_media_preferred(m, 1) == find_media_preferred(m, 2));
    assert(find_media_preferred(m, 0) == find_media_preferred(m, 1));
}

/// Time since `started` on a monotonic clock that reads `clock_nanos` now.
pub open spec fn elapsed_since(clock_nanos: u128, started: u128) -> u128 {
    if clock_nanos >= started {
        (clock_nanos - started) as u128
    } else {
        0
    }
}

/// `value` is the submit answer `answer` written out again: its three fields, then the
/// other members.
pub open spec fn echoes_submit(value: Json, answer: Json) -> bool {
    value matches Json::Object(m) && answer matches Json::Object(a) && {
        &&& m@.len() == 3 + extra_entries(a@).len()
        &&& m@[0].0@ == "request_id"@ && text_of(m@[0].1) == text_of_member(answer, "request_id"@)
        &&& m@[1].0@ == "status_url"@ && text_of(m@[1].1) == text_of_member(answer, "status_url"@)
        &&& m@[2].0@ == "response_url"@ && text_of(m@[2].1) == text_of_member(
            answer,
            "response_url"@,
        )
        &&& m@.subrange(3, m@.len() as int) == extra_entries(a@)
    }
}

/// A copy of a list of texts.
pub fn copy_strings(v: &Vec<String>) -> (r: Vec<String>)
    ensures
        r@ == v@,
{
    let mut r: Vec<String> = Vec::new();
    let mut i: usize = 0;
    while i < v.len()
        invariant
            i <= v.len(),
            r@ == v@.take(i as int),
        decreases v.len() - i,
    {
        r.push(v[i].clone());
        assert(r@ =~= v@.take(i + 1));
        i = i + 1;
    }
    assert(v@.take(v@.len() as int) =~= v@);
    r
}

fn copy_text(o: &Option<String>) -> (r: Option<String>)
    ensures
        r == *o,
{
    match o {
        Some(s) => Some(s.clone()),
        None => None,
    }
}

fn no_references() -> (r: References)
    ensures
        r.images@.len() == 0,
        r.videos@.len() == 0,
        r.audios@.len() == 0,
        r.first_frame is None,
        r.last_frame is None,
{
    References {
        images: Vec::new(),
        videos: Vec::new(),
        audios: Vec::new(),
        first_frame: None,
        last_frame: None,
    }
}

/// `b` keeps everything `a` has handled, in place.
pub open spec fn extends(a: References, b: References) -> bool {
    &&& a.images@.len() <= b.images@.len() && b.images@.take(a.images@.len() as int) == a.images@
    &&& a.videos@.len() <= b.videos@.len() && b.videos@.take(a.videos@.len() as int) == a.videos@
    &&& a.audios@.len() <= b.audios@.len() && b.audios@.take(a.audios@.len() as int) == a.audios@
    &&& (a.first_frame is Some ==> b.first_frame == a.first_frame)
    &&& (a.last_frame is Some ==> b.last_frame == a.last_frame)
}

proof fn lemma_prefix_push(a: Seq<String>, b: Seq<String>, x: String)
    requires
        a.len() <= b.len(),
        b.take(a.len() as int) == a,
    ensures
        b.push(x).take(a.len() as int) == a,
{
    assert(b.push(x).take(a.len() as int) =~= b.take(a.len() as int));
}

proof fn lemma_extends_trans(a: References, b: References, c: References)
    requires
        extends(a, b),
        extends(b, c),
    ensures
        extends(a, c),
{
    assert(c.images@.take(a.images@.len() as int) =~= b.images@.take(a.images@.len() as int));
    assert(c.videos@.take(a.videos@.len() as int) =~= b.videos@.take(a.videos@.len() as int));
    assert(c.audios@.take(a.audios@.len() as int) =~= b.audios@.take(a.audios@.len() as int));
}

proof fn lemma_resolved_at_kept(a: References, b: References, base: References, stage: int)
    requires
        extends(a, b),
        resolved_at(a, stage, handled(base, stage)) is Some,
    ensures
        resolved_at(b, stage, handled(base, stage)) == resolved_at(a, stage, handled(base, stage)),
{
    let i = handled(base, stage);
    if stage == 0 {
        assert(b.images@.take(a.images@.len() as int)[i] == b.images@[i]);
    } else if stage == 1 {
        assert(b.videos@.take(a.videos@.len() as int)[i] == b.videos@[i]);
    } else if stage == 2 {
        assert(b.audios@.take(a.audios@.len() as int)[i] == b.audios@[i]);
    }
}

proof fn lemma_extends_refl(r: References)
    ensures
        extends(r, r),
{
    assert(r.images@.take(r.images@.len() as int) =~= r.images@);
    assert(r.videos@.take(r.videos@.len() as int) =~= r.videos@);
    assert(r.audios@.take(r.audios@.len() as int) =~= r.audios@);
}

/// How many references of the kind being handled at `stage` have been handled.
pub open spec fn handled(r: References, stage: int) -> int {
    if stage == 0 {
        r.images@.len() as int
    } else if stage == 1 {
        r.videos@.len() as int
    } else if stage == 2 {
        r.audios@.len() as int
    } else {
        0
    }
}

/// The URL handled for the `i`-th reference of the kind of `stage`.
pub open spec fn resolved_at(r: References, stage: int, i: int) -> Option<String> {
    if stage == 0 {
        if 0 <= i < r.images@.len() {
            Some(r.images@[i])
        } else {
            None
        }
    } else if stage == 1 {
        if 0 <= i < r.videos@.len() {
            Some(r.videos@[i])
        } else {
            None
        }
    } else if stage == 2 {
        if 0 <= i < r.audios@.len() {
            Some(r.audios@[i])
        } else {
            None
        }
    } else if stage == 3 {
        r.first_frame
    } else {
        r.last_frame
    }
}

/// What is left to do among the references: a measure that every handled reference and
/// every finished stage makes smaller.
pub open spec fn references_left(s: References, r: References, stage: int) -> int {
    (s.images@.len() - r.images@.len()) + (s.videos@.len() - r.videos@.len()) + (
    s.audios@.len() - r.audios@.len()) + (if s.first_frame is Some && r.first_frame is None {
        1int
    } else {
        0
    }) + (if s.last_frame is Some && r.last_frame is None {
        1int
    } else {
        0
    }) + (5 - stage)
}

/// How far the references are handled: how many images, videos and audio clips have their
/// URL, and whether the first and the last frame have theirs.
pub open spec fn progress(r: References) -> (int, int, int, bool, bool) {
    (
        r.images@.len() as int,
        r.videos@.len() as int,
        r.audios@.len() as int,
        r.first_frame is Some,
        r.last_frame is Some,
    )
}

/// The progress of `r` once the reference being handled at `stage` has its URL too.
pub open spec fn progress_after(r: References, stage: int) -> (int, int, int, bool, bool) {
    let p = progress(r);
    if stage == 0 {
        (p.0 + 1, p.1, p.2, p.3, p.4)
    } else if stage == 1 {
        (p.0, p.1 + 1, p.2, p.3, p.4)
    } else if stage == 2 {
        (p.0, p.1, p.2 + 1, p.3, p.4)
    } else if stage == 3 {
        (p.0, p.1, p.2, true, p.4)
    } else {
        (p.0, p.1, p.2, p.3, true)
    }
}

/// The position of the first local reference of `v` from position `from` on; `v.len()`
/// when all the rest are remote.
pub open spec fn next_local(v: Seq<String>, from: int) -> int
    decreases v.len() - from,
{
    if from < 0 || from >= v.len() {
        v.len() as int
    } else if !is_remote(v[from]@) {
        from
    } else {
        next_local(v, from + 1)
    }
}

/// What handling the references `src` meets first, from `stage` on and with `done` of them
/// handled: `Some(Err((name, got, max)))` when a list that is about to be started holds more
/// than its limit; `Some(Ok(path))` for the next local reference, which must be checked,
/// read and uploaded; `None` when every reference left is remote. Images come first, then
/// videos, audio clips, the first frame and the last frame; a list's length is checked as
/// the list is started.
pub open spec fn next_stop(
    src: References,
    done: (int, int, int, bool, bool),
    stage: int,
) -> Option<Result<String, (Seq<char>, nat, nat)>>
    decreases 5 - stage,
{
    if stage < 0 || stage >= 5 {
        None
    } else if stage == 0 {
        if done.0 == 0 && src.images@.len() > MAX_IMAGES {
            Some(Err(("images"@, src.images@.len(), MAX_IMAGES as nat)))
        } else if next_local(src.images@, done.0) < src.images@.len() {
            Some(Ok(src.images@[next_local(src.images@, done.0)]))
        } else {
            next_stop(src, done, 1)
        }
    } else if stage == 1 {
        if done.1 == 0 && src.videos@.len() > MAX_VIDEOS {
            Some(Err(("videos"@, src.videos@.len(), MAX_VIDEOS as nat)))
        } else if next_local(src.videos@, done.1) < src.videos@.len() {
            Some(Ok(src.videos@[next_local(src.videos@, done.1)]))
        } else {
            next_stop(src, done, 2)
        }
    } else if stage == 2 {
        if done.2 == 0 && src.audios@.len() > MAX_AUDIOS {
            Some(Err(("audios"@, src.audios@.len(), MAX_AUDIOS as nat)))
        } else if next_local(src.audios@, done.2) < src.audios@.len() {
            Some(Ok(src.audios@[next_local(src.audios@, done.2)]))
        } else {
            next_stop(src, done, 3)
        }
    } else if stage == 3 {
        if !done.3 && src.first_frame is Some && !is_remote(src.first_frame->0@) {
            Some(Ok(src.first_frame->0))
        } else {
            next_stop(src, done, 4)
        }
    } else {
        if !done.4 && src.last_frame is Some && !is_remote(src.last_frame->0@) {
            Some(Ok(src.last_frame->0))
        } else {
            None
        }
    }
}

/// `b` keeps `a` and adds to it, up to the length of `src`, only references as `src` gives
/// them, but at position `skip`.
pub open spec fn fills_list(a: Seq<String>, b: Seq<String>, src: Seq<String>, skip: int) -> bool {
    &&& a.len() <= b.len() <= src.len()
    &&& b.take(a.len() as int) == a
    &&& forall|k: int| #![trigger b[k]] a.len() <= k < b.len() && k != skip ==> b[k] == src[k]
}

/// `b` keeps the frame of `a`, and one it adds is the frame of `src`, unless `skip`.
pub open spec fn fills_frame(a: Option<String>, b: Option<String>, src: Option<String>, skip: bool) -> bool {
    &&& (a is Some ==> b == a)
    &&& (a is None && b is Some && !skip ==> b == src)
}

/// `b` keeps what `a` holds and adds the references of `src` as they are given, but for the
/// one at position `i` of the kind handled at `stage`, whose URL was uploaded (a `stage`
/// outside 0 to 4 means none).
pub open spec fn fills(a: References, b: References, src: References, stage: int, i: int) -> bool {
    &&& fills_list(a.images@, b.images@, src.images@, if stage == 0 { i } else { -1 })
    &&& fills_list(a.videos@, b.videos@, src.videos@, if stage == 1 { i } else { -1 })
    &&& fills_list(a.audios@, b.audios@, src.audios@, if stage == 2 { i } else { -1 })
    &&& fills_frame(a.first_frame, b.first_frame, src.first_frame, stage == 3)
    &&& fills_frame(a.last_frame, b.last_frame, src.last_frame, stage == 4)
}

/// Every reference of `v` is remote.
pub open spec fn all_remote(v: Seq<String>) -> bool {
    forall|k: int| #![trigger v[k]] 0 <= k < v.len() ==> is_remote(v[k]@)
}

/// A frame, if given, is remote.
pub open spec fn frame_remote(f: Option<String>) -> bool {
    f matches Some(p) ==> is_remote(p@)
}

/// Every list of `src` is within its limit.
pub open spec fn within_limits(src: References) -> bool {
    &&& src.images@.len() <= MAX_IMAGES
    &&& src.videos@.len() <= MAX_VIDEOS
    &&& src.audios@.len() <= MAX_AUDIOS
}

proof fn lemma_next_local_remote(v: Seq<String>, from: int)
    requires
        0 <= from,
        forall|k: int| #![trigger v[k]] from <= k < v.len() ==> is_remote(v[k]@),
    ensures
        next_local(v, from) == v.len(),
    decreases v.len() - from,
{
    if from < v.len() {
        assert(is_remote(v[from]@));
        lemma_next_local_remote(v, from + 1);
    }
}

proof fn lemma_next_stop_later(
    src: References,
    d1: (int, int, int, bool, bool),
    d2: (int, int, int, bool, bool),
    stage: int,
)
    requires
        stage <= 0 ==> d1.0 == d2.0,
        stage <= 1 ==> d1.1 == d2.1,
        stage <= 2 ==> d1.2 == d2.2,
        stage <= 3 ==> d1.3 == d2.3,
        stage <= 4 ==> d1.4 == d2.4,
    ensures
        next_stop(src, d1, stage) == next_stop(src, d2, stage),
    decreases 5 - stage,
{
    if 0 <= stage < 4 {
        lemma_next_stop_later(src, d1, d2, stage + 1);
    }
}

proof fn lemma_within_limits_no_refusal(src: References, done: (int, int, int, bool, bool), stage: int)
    requires
        within_limits(src),
    ensures
        !(next_stop(src, done, stage) matches Some(Err(_))),
    decreases 5 - stage,
{
    if 0 <= stage < 4 {
        lemma_within_limits_no_refusal(src, done, stage + 1);
    }
}

proof fn lemma_all_remote_none(src: References, stage: int)
    requires
        within_limits(src),
        0 <= stage,
        all_remote(src.images@),
        all_remote(src.videos@),
        all_remote(src.audios@),
        frame_remote(src.first_frame),
        frame_remote(src.last_frame),
    ensures
        next_stop(src, (0, 0, 0, false, false), stage) is None,
    decreases 5 - stage,
{
    lemma_next_local_remote(src.images@, 0);
    lemma_next_local_remote(src.videos@, 0);
    lemma_next_local_remote(src.audios@, 0);
    if stage < 4 {
        lemma_all_remote_none(src, stage + 1);
    }
}

proof fn lemma_fills_refl(r: References, src: References)
    requires
        r.images@.len() <= src.images@.len(),
        r.videos@.len() <= src.videos@.len(),
        r.audios@.len() <= src.audios@.len(),
    ensures
        fills(r, r, src, -1, -1),
{
    assert(r.images@.take(r.images@.len() as int) =~= r.images@);
    assert(r.videos@.take(r.videos@.len() as int) =~= r.videos@);
    assert(r.audios@.take(r.audios@.len() as int) =~= r.audios@);
}

proof fn lemma_fills_list_push(a: Seq<String>, b: Seq<String>, src: Seq<String>, skip: int, x: String)
    requires
        fills_list(a, b, src, skip),
        b.len() < src.len(),
        b.len() == skip || x == src[b.len() as int],
    ensures
        fills_list(a, b.push(x), src, skip),
{
    lemma_prefix_push(a, b, x);
    assert forall|k: int| #![trigger b.push(x)[k]] a.len() <= k < b.push(x).len() && k != skip implies b.push(x)[k] == src[k] by {
        if k < b.len() {
            assert(b.push(x)[k] == b[k]);
        }
    }
}

proof fn lemma_fills_list_trans(a: Seq<String>, b: Seq<String>, c: Seq<String>, src: Seq<String>, skip: int)
    requires
        fills_list(a, b, src, skip),
        fills_list(b, c, src, -1),
    ensures
        fills_list(a, c, src, skip),
{
    assert(c.take(a.len() as int) =~= b.take(a.len() as int));
    assert forall|k: int| #![trigger c[k]] a.len() <= k < c.len() && k != skip implies c[k] == src[k] by {
        if k < b.len() {
            assert(c.take(b.len() as int)[k] == c[k]);
        }
    }
}

proof fn lemma_fills_trans(a: References, b: References, c: References, src: References, stage: int, i: int)
    requires
        fills(a, b, src, stage, i),
        fills(b, c, src, -1, -1),
    ensures
        fills(a, c, src, stage, i),
{
    lemma_fills_list_trans(a.images@, b.images@, c.images@, src.images@, if stage == 0 { i } else { -1 });
    lemma_fills_list_trans(a.videos@, b.videos@, c.videos@, src.videos@, if stage == 1 { i } else { -1 });
    lemma_fills_list_trans(a.audios@, b.audios@, c.audios@, src.audios@, if stage == 2 { i } else { -1 });
}

/// `r` is what a session that meets `stop` gives, leaving the session as `s`: the error of
/// a list over its limit, the check of the next local reference, or, once every reference
/// has its URL, the submit of the job or the print of the upload's URLs.
pub open spec fn meets_stop(
    s: Session,
    stop: Option<Result<String, (Seq<char>, nat, nat)>>,
    r: Result<Action, CliError>,
) -> bool {
    match stop {
        Some(Err((n, g, x))) => r matches Err(e) && reports_too_many(e, n, g, x),
        Some(Ok(p)) => r == Ok::<Action, CliError>(Action::CheckFile { path: p }),
        None => r matches Ok(a) && {
            &&& s.stage == 5
            &&& match s.goal {
                Goal::Upload => a matches Action::Print { value } && is_upload_summary(
                    value,
                    s.resolved.images@,
                    s.resolved.videos@,
                    s.resolved.audios@,
                ),
                _ => a is Send && s.phase is Submitting,
            }
        },
    }
}

/// `a`, the first action of the session `s` for `args` and `model`, submits the job at once:
/// a POST of the generate body, with the references as given, to the model's endpoint.
pub open spec fn submits_at_once(s: Session, a: Action, api: ApiClient, args: GenerateArgs, model: Model) -> bool {
    &&& s.phase is Submitting
    &&& s.resolved.images@ == args.images@ && s.resolved.videos@ == args.videos@
        && s.resolved.audios@ == args.audios@
    &&& s.resolved.first_frame == args.first_frame && s.resolved.last_frame == args.last_frame
    &&& a matches Action::Send { request } && is_post_json(
        request,
        api,
        base_of(api.base_url@) + "/v2/"@ + model_slug(model),
    ) && (request.body matches Some(b) && is_generate_body(
        b,
        args,
        args.images@,
        args.videos@,
        args.audios@,
        args.first_frame,
        args.last_frame,
    ))
}

/// An upload of these lists stops before its first request: a list over its limit is met
/// before any local reference, lists being started in order.
pub open spec fn upload_refused(images: Seq<String>, videos: Seq<String>, audios: Seq<String>) -> bool {
    ||| images.len() > MAX_IMAGES
    ||| all_remote(images) && videos.len() > MAX_VIDEOS
    ||| all_remote(images) && all_remote(videos) && videos.len() <= MAX_VIDEOS && audios.len()
        > MAX_AUDIOS
}

/// `e` names the first list, in order, that is over its limit.
pub open spec fn upload_refusal(images: Seq<String>, videos: Seq<String>, audios: Seq<String>, e: CliError) -> bool {
    if images.len() > MAX_IMAGES {
        reports_too_many(e, "images"@, images.len(), MAX_IMAGES as nat)
    } else if videos.len() > MAX_VIDEOS {
        reports_too_many(e, "videos"@, videos.len(), MAX_VIDEOS as nat)
    } else {
        reports_too_many(e, "audios"@, audios.len(), MAX_AUDIOS as nat)
    }
}

proof fn lemma_next_local(v: Seq<String>, from: int)
    requires
        0 <= from,
    ensures
        from <= next_local(v, from) <= v.len() || (from > v.len() && next_local(v, from) == v.len()),
        next_local(v, from) < v.len() ==> !is_remote(v[next_local(v, from)]@),
        forall|k: int| #![trigger v[k]] from <= k < next_local(v, from) ==> is_remote(v[k]@),
        from == 0 ==> (all_remote(v) <==> next_local(v, from) == v.len()),
    decreases v.len() - from,
{
    if from < v.len() && is_remote(v[from]@) {
        lemma_next_local(v, from + 1);
    }
    if from == 0 && next_local(v, from) < v.len() {
        assert(!is_remote(v[next_local(v, from)]@));
    }
}

proof fn lemma_fills_list_complete(b: Seq<String>, src: Seq<String>)
    requires
        fills_list(Seq::empty(), b, src, -1),
        b.len() == src.len(),
    ensures
        b == src,
{
    assert(b =~= src);
}

proof fn lemma_fills_complete(a: References, b: References, src: References)
    requires
        a.images@.len() == 0 && a.videos@.len() == 0 && a.audios@.len() == 0,
        a.first_frame is None && a.last_frame is None,
        fills(a, b, src, -1, -1),
    ensures
        b.images@.len() == src.images@.len() ==> b.images@ == src.images@,
        b.videos@.len() == src.videos@.len() ==> b.videos@ == src.videos@,
        b.audios@.len() == src.audios@.len() ==> b.audios@ == src.audios@,
        (b.first_frame is Some <==> src.first_frame is Some) ==> b.first_frame == src.first_frame,
        (b.last_frame is Some <==> src.last_frame is Some) ==> b.last_frame == src.last_frame,
{
    assert(a.images@ =~= Seq::<String>::empty());
    assert(a.videos@ =~= Seq::<String>::empty());
    assert(a.audios@ =~= Seq::<String>::empty());
    if b.images@.len() == src.images@.len() {
        lemma_fills_list_complete(b.images@, src.images@);
    }
    if b.videos@.len() == src.videos@.len() {
        lemma_fills_list_complete(b.videos@, src.videos@);
    }
    if b.audios@.len() == src.audios@.len() {
        lemma_fills_list_complete(b.audios@, src.audios@);
    }
}

impl Session {
    /// The wait limits of the task: (longest wait, pause between status reads), in seconds.
    pub open spec fn limits(self) -> (u64, u64) {
        match self.goal {
            Goal::Generate { args, .. } => (args.max_wait_secs, args.poll_interval_secs),
            Goal::Wait { max_wait_secs, poll_interval_secs, .. } => (max_wait_secs, poll_interval_secs),
            Goal::Upload => (0, 0),
        }
    }

    fn wait_limits(&self) -> (r: (u64, u64))
        ensures
            r == self.limits(),
    {
        match &self.goal {
            Goal::Generate { args, .. } => (args.max_wait_secs, args.poll_interval_secs),
            Goal::Wait { max_wait_secs, poll_interval_secs, .. } => (*max_wait_secs, *poll_interval_secs),
            Goal::Upload => (0, 0),
        }
    }

    /// Handles the references in order until one needs the caller, then acts on the goal.
    fn advance(&mut self) -> (r: Result<Action, CliError>)
        requires
            old(self).goal is Generate ==> old(self).task is None,
            old(self).wf(),
            !(old(self).goal is Wait),
            old(self).phase is Finished,
        ensures
            final(self).task == old(self).task,
            r matches Ok(a) ==> final(self).wf() && final(self).asked(a),
            extends(old(self).resolved, final(self).resolved),
            fills(old(self).resolved, final(self).resolved, old(self).sources, -1, -1),
            final(self).sources == old(self).sources,
            final(self).goal == old(self).goal,
            final(self).api == old(self).api,
            meets_stop(
                *final(self),
                next_stop(old(self).sources, progress(old(self).resolved), old(self).stage as int),
                r,
            ),
    {
        proof {
            lemma_extends_refl(self.resolved);
            lemma_fills_refl(self.resolved, self.sources);
        }
        loop
            invariant
                self.wf(),
                !(self.goal is Wait),
                self.phase is Finished,
                extends(old(self).resolved, self.resolved),
                fills(old(self).resolved, self.resolved, self.sources, -1, -1),
                next_stop(self.sources, progress(self.resolved), self.stage as int) == next_stop(
                    old(self).sources,
                    progress(old(self).resolved),
                    old(self).stage as int,
                ),
                self.sources == old(self).sources,
                self.goal == old(self).goal,
                self.api == old(self).api,
                self.task == old(self).task,
                old(self).goal is Generate ==> old(self).task is None,
            decreases references_left(self.sources, self.resolved, self.stage as int),
        {
            let ghost before = self.resolved;
            if self.stage == 0 {
                if self.resolved.images.len() == 0 {
                    match validate_count(self.sources.images.as_slice(), MAX_IMAGES, "images") {
                        Ok(()) => {},
                        Err(e) => {
                            return Err(e);
                        },
                    }
                }
                if self.resolved.images.len() < self.sources.images.len() {
                    let p = self.sources.images[self.resolved.images.len()].clone();
                    if is_remote_ref(p.as_str()) {
                        proof {
                            lemma_prefix_push(old(self).resolved.images@, self.resolved.images@, p);
                            lemma_fills_list_push(
                                old(self).resolved.images@,
                                self.resolved.images@,
                                self.sources.images@,
                                -1,
                                p,
                            );
                        }
                        let ghost d = progress(self.resolved);
                        self.resolved.images.push(p);
                        proof {
                            lemma_next_stop_later(self.sources, d, progress(self.resolved), 1);
                        }
                    } else {
                        self.phase = Phase::Checking { path: p.clone() };
                        return Ok(Action::CheckFile { path: p });
                    }
                } else {
                    self.stage = 1;
                }
            } else if self.stage == 1 {
                if self.resolved.videos.len() == 0 {
                    match validate_count(self.sources.videos.as_slice(), MAX_VIDEOS, "videos") {
                        Ok(()) => {},
                        Err(e) => {
                            return Err(e);
                        },
                    }
                }
                if self.resolved.videos.len() < self.sources.videos.len() {
                    let p = self.sources.videos[self.resolved.videos.len()].clone();
                    if is_remote_ref(p.as_str()) {
                        proof {
                            lemma_prefix_push(old(self).resolved.videos@, self.resolved.videos@, p);
                            lemma_fills_list_push(
                                old(self).resolved.videos@,
                                self.resolved.videos@,
                                self.sources.videos@,
                                -1,
                                p,
                            );
                        }
                        let ghost d = progress(self.resolved);
                        self.resolved.videos.push(p);
                        proof {
                            lemma_next_stop_later(self.sources, d, progress(self.resolved), 2);
                        }
                    } else {
                        self.phase = Phase::Checking { path: p.clone() };
                        return Ok(Action::CheckFile { path: p });
                    }
                } else {
                    self.stage = 2;
                }
            } else if self.stage == 2 {
                if self.resolved.audios.len() == 0 {
                    match validate_count(self.sources.audios.as_slice(), MAX_AUDIOS, "audios") {
                        Ok(()) => {},
                        Err(e) => {
                            return Err(e);
                        },
                    }
                }
                if self.resolved.audios.len() < self.sources.audios.len() {
                    let p = self.sources.audios[self.resolved.audios.len()].clone();
                    if is_remote_ref(p.as_str()) {
                        proof {
                            lemma_prefix_push(old(self).resolved.audios@, self.resolved.audios@, p);
                            lemma_fills_list_push(
                                old(self).resolved.audios@,
                                self.resolved.audios@,
                                self.sources.audios@,
                                -1,
                                p,
                            );
                        }
                        let ghost d = progress(self.resolved);
                        self.resolved.audios.push(p);
                        proof {
                            lemma_next_stop_later(self.sources, d, progress(self.resolved), 3);
                        }
                    } else {
                        self.phase = Phase::Checking { path: p.clone() };
                        return Ok(Action::CheckFile { path: p });
                    }
                } else {
                    self.stage = 3;
                }
            } else if self.stage == 3 {
                if self.resolved.first_frame.is_none() && self.sources.first_frame.is_some() {
                    let p = copy_text(&self.sources.first_frame).unwrap();
                    if is_remote_ref(p.as_str()) {
                        let ghost d = progress(self.resolved);
                        self.resolved.first_frame = Some(p);
                        proof {
                            lemma_next_stop_later(self.sources, d, progress(self.resolved), 4);
                        }
                    } else {
                        self.phase = Phase::Checking { path: p.clone() };
                        return Ok(Action::CheckFile { path: p });
                    }
                } else {
                    self.stage = 4;
                }
            } else if self.stage == 4 {
                if self.resolved.last_frame.is_none() && self.sources.last_frame.is_some() {
                    let p = copy_text(&self.sources.last_frame).unwrap();
                    if is_remote_ref(p.as_str()) {
                        let ghost d = progress(self.resolved);
                        self.resolved.last_frame = Some(p);
                        proof {
                            lemma_next_stop_later(self.sources, d, progress(self.resolved), 5);
                        }
                    } else {
                        self.phase = Phase::Checking { path: p.clone() };
                        return Ok(Action::CheckFile { path: p });
                    }
                } else {
                    self.stage = 5;
                }
            } else {
                return self.references_done();
            }
        }
    }

    /// All references are handled: submit the job, or report the URLs.
    fn references_done(&mut self) -> (r: Result<Action, CliError>)
        requires
            old(self).goal is Generate ==> old(self).task is None,
            old(self).wf(),
            old(self).stage == 5,
            !(old(self).goal is Wait),
        ensures
            final(self).task == old(self).task,
            r matches Ok(a) ==> final(self).wf() && final(self).asked(a),
            r is Ok,
            final(self).resolved == old(self).resolved,
            final(self).sources == old(self).sources,
            final(self).goal == old(self).goal,
            final(self).api == old(self).api,
            final(self).stage == 5,
            old(self).goal is Upload ==> (r matches Ok(Action::Print { value }) && is_upload_summary(
                value,
                final(self).resolved.images@,
                final(self).resolved.videos@,
                final(self).resolved.audios@,
            )),
            !(old(self).goal is Upload) ==> (r matches Ok(a) && a is Send && final(self).phase is Submitting),
    {
        let images = copy_strings(&self.resolved.images);
        let videos = copy_strings(&self.resolved.videos);
        let audios = copy_strings(&self.resolved.audios);
        let first_frame = copy_text(&self.resolved.first_frame);
        let last_frame = copy_text(&self.resolved.last_frame);
        match &self.goal {
            Goal::Generate { args, model, .. } => {
                let body = generate_request_body(
                    args,
                    images,
                    videos,
                    audios,
                    first_frame,
                    last_frame,
                );
                let request = self.api.submit_request(model.slug(), body);
                self.phase = Phase::Submitting;
                Ok(Action::Send { request })
            },
            _ => {
                let value = upload_summary(images, videos, audios);
                self.phase = Phase::Finished;
                Ok(Action::Print { value })
            },
        }
    }
}

impl Session {
    /// Takes `url` as the URL of the reference being handled.
    fn record(&mut self, url: String)
        requires
            references_ok(old(self).sources, old(self).resolved, old(self).stage as int),
            current_reference(old(self).sources, old(self).resolved, old(self).stage as int) matches Some(
                p,
            ) && !is_remote(p@),
        ensures
            final(self).task == old(self).task,
            references_ok(final(self).sources, final(self).resolved, final(self).stage as int),
            final(self).sources == old(self).sources,
            final(self).goal == old(self).goal,
            final(self).api == old(self).api,
            final(self).stage == old(self).stage,
            final(self).phase == old(self).phase,
            extends(old(self).resolved, final(self).resolved),
            resolved_at(final(self).resolved, old(self).stage as int, handled(old(self).resolved, old(self).stage as int))
                == Some(url),
            progress(final(self).resolved) == progress_after(old(self).resolved, old(self).stage as int),
            fills(
                old(self).resolved,
                final(self).resolved,
                old(self).sources,
                old(self).stage as int,
                handled(old(self).resolved, old(self).stage as int),
            ),
    {
        proof {
            lemma_extends_refl(self.resolved);
            lemma_fills_refl(self.resolved, self.sources);
            let r = self.resolved;
            let s = self.sources;
            if self.stage == 0 {
                lemma_fills_list_push(r.images@, r.images@, s.images@, r.images@.len() as int, url);
            } else if self.stage == 1 {
                lemma_fills_list_push(r.videos@, r.videos@, s.videos@, r.videos@.len() as int, url);
            } else if self.stage == 2 {
                lemma_fills_list_push(r.audios@, r.audios@, s.audios@, r.audios@.len() as int, url);
            }
            lemma_prefix_push(self.resolved.images@, self.resolved.images@, url);
            lemma_prefix_push(self.resolved.videos@, self.resolved.videos@, url);
            lemma_prefix_push(self.resolved.audios@, self.resolved.audios@, url);
        }
        if self.stage == 0 {
            self.resolved.images.push(url);
        } else if self.stage == 1 {
            self.resolved.videos.push(url);
        } else if self.stage == 2 {
            self.resolved.audios.push(url);
        } else if self.stage == 3 {
            self.resolved.first_frame = Some(url);
        } else {
            self.resolved.last_frame = Some(url);
        }
    }

    /// Asks for the status of task `task_id`, whose wait began at `started`.
    fn poll(&mut self, task_id: String, started: u128) -> (r: Action)
        requires
            old(self).waits_on(task_id),
            old(self).wf(),
        ensures
            final(self).task == old(self).task,
            final(self).wf(),
            final(self).asked(r),
            final(self).phase == (Phase::Polling { task_id, started }),
            final(self).api == old(self).api,
            final(self).goal == old(self).goal,
            final(self).resolved == old(self).resolved,
            final(self).sources == old(self).sources,
            final(self).stage == old(self).stage,
    {
        let url = self.api.status_url(task_id.as_str());
        let request = self.api.get_json_request(url);
        self.phase = Phase::Polling { task_id, started };
        Action::Send { request }
    }

    /// Where the output goes, if anywhere.
    pub open spec fn out_path(self) -> Option<String> {
        match self.goal {
            Goal::Generate { args, .. } => args.out,
            Goal::Wait { out, .. } => out,
            Goal::Upload => None,
        }
    }

    /// Whether the raw result is printed in place of a summary.
    pub open spec fn prints_raw(self) -> bool {
        match self.goal {
            Goal::Generate { raw, .. } => raw,
            Goal::Wait { raw, .. } => raw,
            Goal::Upload => false,
        }
    }

    fn output_path(&self) -> (r: Option<String>)
        ensures
            r == self.out_path(),
    {
        match &self.goal {
            Goal::Generate { args, .. } => copy_text(&args.out),
            Goal::Wait { out, .. } => copy_text(out),
            Goal::Upload => None,
        }
    }

    fn raw_output(&self) -> (r: bool)
        ensures
            r == self.prints_raw(),
    {
        match &self.goal {
            Goal::Generate { raw, .. } => *raw,
            Goal::Wait { raw, .. } => *raw,
            Goal::Upload => false,
        }
    }

    /// Starts a `generate` session: the request is checked, then its references are handled
    /// in order. The first action checks the first local reference; with none, it submits
    /// the job, whose references are those given.
    pub fn generate(api: ApiClient, args: GenerateArgs, raw: bool) -> (r: Result<
        (Session, Action),
        CliError,
    >)
        ensures
            r is Ok <==> (resolved_model(args.model, args.speed) matches Some(m) && generate_valid(
                args,
                m,
            )),
            resolved_model(args.model, args.speed) is None ==> (r matches Err(e)
                && e is ModelAndSpeed),
            resolved_model(args.model, args.speed) matches Some(m) ==> (r matches Err(e)
                ==> first_generate_error(args, m, e)),
            r matches Ok((s, a)) ==> {
                &&& s.wf() && s.asked(a)
                &&& s.api == api
                &&& s.goal == (Goal::Generate {
                    args,
                    model: resolved_model(args.model, args.speed)->0,
                    raw,
                })
                &&& s.task is None
                &&& s.sources.images@ == args.images@ && s.sources.videos@ == args.videos@
                    && s.sources.audios@ == args.audios@
                &&& s.sources.first_frame == args.first_frame && s.sources.last_frame
                    == args.last_frame
                &&& match next_stop(s.sources, (0, 0, 0, false, false), 0) {
                    Some(Ok(p)) => a == Action::CheckFile { path: p },
                    _ => submits_at_once(s, a, api, args, resolved_model(args.model, args.speed)->0),
                }
            },
            resolved_model(args.model, args.speed) matches Some(m) ==> (generate_valid(args, m)
                && all_remote(args.images@) && all_remote(args.videos@) && all_remote(
                args.audios@,
            ) && frame_remote(args.first_frame) && frame_remote(args.last_frame) ==> (r matches Ok(
                (s, a),
            ) && submits_at_once(s, a, api, args, m))),
    {
        let model = resolve_model(&args)?;
        validate_generate(&args, model)?;
        let sources = References {
            images: copy_strings(&args.images),
            videos: copy_strings(&args.videos),
            audios: copy_strings(&args.audios),
            first_frame: copy_text(&args.first_frame),
            last_frame: copy_text(&args.last_frame),
        };
        let mut session = Session {
            api,
            goal: Goal::Generate { args, model, raw },
            sources,
            resolved: no_references(),
            stage: 0,
            phase: Phase::Finished,
            task: None,
        };
        let ghost start = session;
        proof {
            assert(progress(start.resolved) == (0int, 0int, 0int, false, false));
            lemma_within_limits_no_refusal(start.sources, (0, 0, 0, false, false), 0);
        }
        match session.advance() {
            Ok(action) => {
                proof {
                    lemma_fills_complete(start.resolved, session.resolved, start.sources);
                    if all_remote(start.sources.images@) && all_remote(start.sources.videos@)
                        && all_remote(start.sources.audios@) && frame_remote(start.sources.first_frame)
                        && frame_remote(start.sources.last_frame) {
                        lemma_all_remote_none(start.sources, 0);
                    }
                }
                Ok((session, action))
            },
            Err(e) => Err(e),
        }
    }

    /// Starts an `upload` session for these references, handled in order: each list's
    /// length is checked as it is started, and the first action checks the first local
    /// reference; with none, it prints the references as given.
    pub fn upload(
        api: ApiClient,
        images: Vec<String>,
        videos: Vec<String>,
        audios: Vec<String>,
    ) -> (r: Result<(Session, Action), CliError>)
        ensures
            r is Err <==> upload_refused(images@, videos@, audios@),
            r matches Err(e) ==> upload_refusal(images@, videos@, audios@, e),
            r matches Ok((s, a)) ==> {
                &&& s.wf() && s.asked(a)
                &&& s.api == api
                &&& s.goal is Upload
                &&& s.task is None
                &&& s.sources.images@ == images@ && s.sources.videos@ == videos@
                    && s.sources.audios@ == audios@
                &&& s.sources.first_frame is None && s.sources.last_frame is None
                &&& match next_stop(s.sources, (0, 0, 0, false, false), 0) {
                    Some(Ok(p)) => a == Action::CheckFile { path: p },
                    _ => a matches Action::Print { value } && is_upload_summary(
                        value,
                        images@,
                        videos@,
                        audios@,
                    ),
                }
            },
            images@.len() <= MAX_IMAGES && videos@.len() <= MAX_VIDEOS && audios@.len()
                <= MAX_AUDIOS ==> r is Ok,
            images@.len() <= MAX_IMAGES && videos@.len() <= MAX_VIDEOS && audios@.len()
                <= MAX_AUDIOS && all_remote(images@) && all_remote(videos@) && all_remote(audios@)
                ==> (r matches Ok((_, a)) && a matches Action::Print { value } && is_upload_summary(
                value,
                images@,
                videos@,
                audios@,
            )),
    {
        let mut session = Session {
            api,
            goal: Goal::Upload,
            sources: References { images, videos, audios, first_frame: None, last_frame: None },
            resolved: no_references(),
            stage: 0,
            phase: Phase::Finished,
            task: None,
        };
        let ghost start = session;
        proof {
            assert(progress(start.resolved) == (0int, 0int, 0int, false, false));
            lemma_next_local(start.sources.images@, 0);
            lemma_next_local(start.sources.videos@, 0);
            lemma_next_local(start.sources.audios@, 0);
            reveal_with_fuel(next_stop, 6);
            if within_limits(start.sources) {
                lemma_within_limits_no_refusal(start.sources, (0, 0, 0, false, false), 0);
                if all_remote(start.sources.images@) && all_remote(start.sources.videos@)
                    && all_remote(start.sources.audios@) {
                    lemma_all_remote_none(start.sources, 0);
                }
            }
        }
        match session.advance() {
            Ok(action) => {
                proof {
                    lemma_fills_complete(start.resolved, session.resolved, start.sources);
                }
                Ok((session, action))
            },
            Err(e) => Err(e),
        }
    }

    /// Starts a `task wait` session for `task_id`; `clock_nanos` is the monotonic clock now.
    pub fn wait(
        api: ApiClient,
        task_id: String,
        out: Option<String>,
        raw: bool,
        max_wait_secs: u64,
        poll_interval_secs: u64,
        clock_nanos: u128,
    ) -> (r: (Session, Action))
        ensures
            r.0.wf() && r.0.asked(r.1),
            r.0.api == api,
            r.0.phase == (Phase::Polling { task_id, started: clock_nanos }),
            r.0.task == Some(task_id),
            r.0.goal matches Goal::Wait { task_id: t, out: o, raw: w, max_wait_secs: m, poll_interval_secs: p }
                && t == task_id && o == out && w == raw && m == max_wait_secs && p
                == poll_interval_secs,
    {
        let mut session = Session {
            api,
            goal: Goal::Wait {
                task_id: task_id.clone(),
                out,
                raw,
                max_wait_secs,
                poll_interval_secs,
            },
            sources: no_references(),
            resolved: no_references(),
            stage: 5,
            phase: Phase::Finished,
            task: Some(task_id.clone()),
        };
        let action = session.poll(task_id, clock_nanos);
        (session, action)
    }

    /// Takes the caller's report and decides what comes next.
    pub fn step(&mut self, event: Event) -> (r: Result<Action, CliError>)
        requires
            old(self).wf(),
            old(self).awaits(event),
            event matches Event::FileRead { bytes } ==> bytes@.len() / 3 * 4 + 4 <= usize::MAX,
        ensures
            r matches Ok(a) ==> final(self).wf() && final(self).asked(a),
            final(self).api == old(self).api,
            final(self).goal == old(self).goal,
            extends(old(self).resolved, final(self).resolved),
            !(old(self).phase is Submitting) ==> final(self).task == old(self).task,
            // A local reference is typed by its extension before it is read.
            old(self).phase matches Phase::Checking { path } ==> {
                &&& (r matches Err(e) ==> e matches CliError::UnsupportedMediaExtension { path: p }
                    && p@ == path@ && path_mime_fits(path@, None))
                &&& (r is Ok ==> (final(self).phase matches Phase::Reading { path: p, mime } && p
                    == path && path_mime_fits(path@, Some(mime@)) && r == Ok::<Action, CliError>(
                    Action::ReadFile { path },
                )))
            },
            // Its contents go to the storage service as a base64 data URL of that type.
            old(self).phase matches Phase::Reading { mime, .. } ==> (event matches Event::FileRead {
                bytes,
            } ==> r matches Ok(Action::Send { request }) && is_upload_request(
                request,
                old(self).api,
                data_url_text(mime@, base64_standard(bytes@)),
            )),
            // The URL the service answers with stands for that reference.
            old(self).phase matches Phase::Uploading { path } ==> (event matches Event::Replied {
                status,
                body,
                parsed,
                ..
            } ==> {
                &&& (!is_success(status) ==> (r matches Err(e) && reports_http(e, status, body, parsed)))
                &&& (is_success(status) && reply_uploaded_url(parsed) is None ==> (r matches Err(e)
                    && e matches CliError::MissingUploadUrl { path: p } && p@ == path@))
                &&& (reply_uploaded_url(parsed) matches Some(u) ==> is_success(status) ==> {
                    &&& resolved_at(
                        final(self).resolved,
                        old(self).stage as int,
                        handled(old(self).resolved, old(self).stage as int),
                    ) matches Some(x) && x@ == u
                    &&& fills(
                        old(self).resolved,
                        final(self).resolved,
                        old(self).sources,
                        old(self).stage as int,
                        handled(old(self).resolved, old(self).stage as int),
                    )
                    &&& meets_stop(
                        *final(self),
                        next_stop(
                            old(self).sources,
                            progress_after(old(self).resolved, old(self).stage as int),
                            old(self).stage as int,
                        ),
                        r,
                    )
                })
            }),
            // The job's answer names the task to wait for, or is printed as it is.
            old(self).phase is Submitting ==> (event matches Event::Replied {
                status,
                body,
                parsed,
                clock_nanos,
                ..
            } ==> {
                &&& (!is_success(status) ==> (r matches Err(e) && reports_http(e, status, body, parsed)))
                &&& (r matches Err(e) ==> reports_http(e, status, body, parsed) || e is BadSubmitResponse)
                &&& (is_success(status) ==> (r is Ok <==> {
                    &&& reply_text(parsed, "request_id"@) is Some
                    &&& reply_text(parsed, "status_url"@) is Some
                    &&& reply_text(parsed, "response_url"@) is Some
                }))
                &&& (r is Ok ==> (old(self).goal matches Goal::Generate { args, .. } && if args.no_wait {
                    r matches Ok(Action::Print { value }) && parsed matches Some(p)
                        && echoes_submit(value, p)
                } else {
                    final(self).phase matches Phase::Polling { task_id, started } && reply_text(
                        parsed,
                        "request_id"@,
                    ) == Some(task_id@) && started == clock_nanos && final(self).task == Some(
                        task_id,
                    )
                }))
            }),
            // A status read decides between the result, another read, and giving up.
            old(self).phase matches Phase::Polling { task_id, started } ==> (event matches Event::Replied {
                status,
                body,
                parsed,
                clock_nanos,
                ..
            } ==> {
                &&& (!is_success(status) && !reply_is_terminal(parsed) ==> (r matches Err(e)
                    && reports_http(e, status, body, parsed)))
                &&& (is_success(status) || reply_is_terminal(parsed) ==> {
                    if reply_text(parsed, "status"@) == Some("COMPLETED"@) {
                        r is Ok && final(self).phase == (Phase::Fetching { task_id })
                    } else if reply_text(parsed, "status"@) == Some("FAILED"@) {
                        r matches Err(e) && e matches CliError::TaskFailed { detail }
                            && parsed matches Some(p) && detail == member_or_whole(p, "error"@)
                    } else if timed_out(elapsed_since(clock_nanos, started), old(self).limits().0) {
                        r matches Err(e) && e matches CliError::TaskTimedOut {
                            task_id: t,
                            max_wait_secs: w,
                        } && t@ == task_id@ && w == old(self).limits().0
                    } else {
                        r matches Ok(Action::Sleep { .. }) && final(self).phase == (Phase::Sleeping {
                            task_id,
                            started,
                        })
                    }
                })
            }),
            // A task still running is waited on within the request's own limits.
            old(self).phase matches Phase::Polling { task_id, started } ==> (event matches Event::Replied {
                status,
                parsed,
                clock_nanos,
                ..
            } ==> ((is_success(status) || reply_is_terminal(parsed)) && reply_text(
                parsed,
                "status"@,
            ) != Some("COMPLETED"@) && reply_text(parsed, "status"@) != Some("FAILED"@) ==> {
                let (max_wait, every) = match old(self).goal {
                    Goal::Generate { args, .. } => (args.max_wait_secs, args.poll_interval_secs),
                    Goal::Wait { max_wait_secs, poll_interval_secs, .. } => (
                        max_wait_secs,
                        poll_interval_secs,
                    ),
                    Goal::Upload => (0, 0),
                };
                if elapsed_since(clock_nanos, started) >= max_wait * 1_000_000_000 {
                    r matches Err(e) && e matches CliError::TaskTimedOut {
                        task_id: t,
                        max_wait_secs: w,
                    } && t@ == task_id@ && w == max_wait
                } else {
                    r matches Ok(Action::Sleep { secs }) && secs == (if every == 0 {
                        1
                    } else {
                        every
                    })
                }
            })),
            // After a pause the status is read again.
            old(self).phase matches Phase::Sleeping { task_id, started } ==> r is Ok
                && final(self).phase == (Phase::Polling { task_id, started }),
            // The result's output URL is downloaded to the output path, if there is one.
            old(self).phase matches Phase::Fetching { task_id } ==> (event matches Event::Replied {
                status,
                body,
                parsed,
                ..
            } ==> {
                &&& (!is_success(status) && !reply_is_terminal(parsed) ==> (r matches Err(e)
                    && reports_http(e, status, body, parsed)))
                &&& (is_success(status) || reply_is_terminal(parsed) ==> match old(self).out_path() {
                    Some(out) => match reply_output_url(body@, parsed) {
                        Some(u) => r matches Ok(Action::Download { url, out: o }) && url@ == u && o
                            == out && (final(self).phase matches Phase::Downloading {
                            task_id: t,
                            ..
                        } && t == task_id),
                        None => r matches Err(e) && e is MissingOutputUrl,
                    },
                    None => r matches Ok(Action::Print { value }) && body_value(value, body, parsed),
                })
            }),
            // Once saved, the raw result or a summary is printed.
            old(self).phase matches Phase::Downloading { task_id, url, out, result } ==> (r matches Ok(
                Action::Print { value },
            ) && old(self).task == Some(task_id) && if old(self).prints_raw() {
                value == result
            } else if old(self).goal is Generate {
                is_generate_summary(value, task_id, url, out)
            } else {
                is_wait_summary(value, task_id, url, out)
            }),
    {
        proof {
            lemma_extends_refl(self.resolved);
        }
        let mut phase = Phase::Finished;
        std::mem::swap(&mut phase, &mut self.phase);
        match phase {
            Phase::Checking { path } => self.on_checked(path),
            Phase::Reading { path, mime } => match event {
                Event::FileRead { bytes } => Ok(self.on_read(path, mime, bytes)),
                _ => vstd::pervasive::unreached(),
            },
            Phase::Uploading { path } => match event {
                Event::Replied { status, body, parsed, .. } => self.on_uploaded(
                    path,
                    status,
                    body,
                    parsed,
                ),
                _ => vstd::pervasive::unreached(),
            },
            Phase::Submitting => match event {
                Event::Replied { status, body, parsed, clock_nanos } => self.on_submitted(
                    status,
                    body,
                    parsed,
                    clock_nanos,
                ),
                _ => vstd::pervasive::unreached(),
            },
            Phase::Polling { task_id, started } => match event {
                Event::Replied { status, body, parsed, clock_nanos } => self.on_status(
                    task_id,
                    started,
                    status,
                    body,
                    parsed,
                    clock_nanos,
                ),
                _ => vstd::pervasive::unreached(),
            },
            Phase::Sleeping { task_id, started } => Ok(self.poll(task_id, started)),
            Phase::Fetching { task_id } => match event {
                Event::Replied { status, body, parsed, .. } => self.on_result(
                    task_id,
                    status,
                    body,
                    parsed,
                ),
                _ => vstd::pervasive::unreached(),
            },
            Phase::Downloading { task_id, url, out, result } => Ok(
                self.on_downloaded(task_id, url, out, result),
            ),
            Phase::Finished => vstd::pervasive::unreached(),
        }
    }

    /// The local reference `path` exists and is a file: type it by its extension.
    fn on_checked(&mut self, path: String) -> (r: Result<Action, CliError>)
        requires
            old(self).goal is Generate ==> old(self).task is None,
            old(self).wf(),
            old(self).phase is Finished,
            current_reference(old(self).sources, old(self).resolved, old(self).stage as int) == Some(
                path,
            ),
            !is_remote(path@),
            !(old(self).goal is Wait),
        ensures
            final(self).task == old(self).task,
            r matches Ok(a) ==> final(self).wf() && final(self).asked(a),
            final(self).api == old(self).api,
            final(self).goal == old(self).goal,
            final(self).resolved == old(self).resolved,
            extends(old(self).resolved, final(self).resolved),
            r matches Err(e) ==> e matches CliError::UnsupportedMediaExtension { path: p } && p@
                == path@ && path_mime_fits(path@, None),
            r is Ok ==> (final(self).phase matches Phase::Reading { path: p, mime } && p == path
                && path_mime_fits(path@, Some(mime@))),
    {
        proof {
            lemma_extends_refl(self.resolved);
        }
        let mime = mime_for_path(path.as_str())?;
        self.phase = Phase::Reading { path: path.clone(), mime };
        Ok(Action::ReadFile { path })
    }

    /// The local reference `path` holds `bytes`: upload them as a data URL.
    fn on_read(&mut self, path: String, mime: &'static str, bytes: Vec<u8>) -> (r: Action)
        requires
            old(self).goal is Generate ==> old(self).task is None,
            old(self).wf(),
            old(self).phase is Finished,
            current_reference(old(self).sources, old(self).resolved, old(self).stage as int) == Some(
                path,
            ),
            !is_remote(path@),
            !(old(self).goal is Wait),
            bytes@.len() / 3 * 4 + 4 <= usize::MAX,
        ensures
            final(self).task == old(self).task,
            final(self).wf() && final(self).asked(r),
            final(self).api == old(self).api,
            final(self).goal == old(self).goal,
            final(self).resolved == old(self).resolved,
            extends(old(self).resolved, final(self).resolved),
            r matches Action::Send { request } && is_upload_request(
                request,
                old(self).api,
                data_url_text(mime@, base64_standard(bytes@)),
            ),
    {
        proof {
            lemma_extends_refl(self.resolved);
        }
        let data_url = file_to_data_url(mime, bytes.as_slice());
        let request = self.api.upload_request(data_url);
        self.phase = Phase::Uploading { path };
        Action::Send { request }
    }

    /// The storage service answered the upload of `path`.
    fn on_uploaded(&mut self, path: String, status: u16, body: String, parsed: Option<Json>) -> (r:
        Result<Action, CliError>)
        requires
            old(self).goal is Generate ==> old(self).task is None,
            old(self).wf(),
            old(self).phase is Finished,
            current_reference(old(self).sources, old(self).resolved, old(self).stage as int) == Some(
                path,
            ),
            !is_remote(path@),
            !(old(self).goal is Wait),
        ensures
            final(self).task == old(self).task,
            r matches Ok(a) ==> final(self).wf() && final(self).asked(a),
            final(self).api == old(self).api,
            final(self).goal == old(self).goal,
            extends(old(self).resolved, final(self).resolved),
            !is_success(status) ==> (r matches Err(e) && reports_http(e, status, body, parsed)),
            is_success(status) && reply_uploaded_url(parsed) is None ==> (r matches Err(e)
                && e matches CliError::MissingUploadUrl { path: p } && p@ == path@),
            reply_uploaded_url(parsed) matches Some(u) ==> is_success(status) ==> {
                &&& resolved_at(
                    final(self).resolved,
                    old(self).stage as int,
                    handled(old(self).resolved, old(self).stage as int),
                ) matches Some(x) && x@ == u
                &&& fills(
                    old(self).resolved,
                    final(self).resolved,
                    old(self).sources,
                    old(self).stage as int,
                    handled(old(self).resolved, old(self).stage as int),
                )
                &&& meets_stop(
                    *final(self),
                    next_stop(
                        old(self).sources,
                        progress_after(old(self).resolved, old(self).stage as int),
                        old(self).stage as int,
                    ),
                    r,
                )
            },
    {
        proof {
            lemma_extends_refl(self.resolved);
        }
        let answer = decode_response(status, body, parsed)?;
        proof {
            if parsed is None {
                lemma_raw_reply(answer, body);
            }
        }
        let url = uploaded_url_for(path.as_str(), &answer)?;
        let ghost before = self.resolved;
        self.record(url);
        let ghost middle = self.resolved;
        let r = self.advance();
        proof {
            lemma_extends_trans(before, middle, self.resolved);
            lemma_resolved_at_kept(middle, self.resolved, before, old(self).stage as int);
            lemma_fills_trans(
                before,
                middle,
                self.resolved,
                old(self).sources,
                old(self).stage as int,
                handled(before, old(self).stage as int),
            );
        }
        r
    }

    /// The service answered the submitted job.
    fn on_submitted(&mut self, status: u16, body: String, parsed: Option<Json>, clock_nanos: u128) -> (r:
        Result<Action, CliError>)
        requires
            old(self).stage == 5,
            old(self).goal is Generate ==> old(self).task is None,
            old(self).wf(),
            old(self).phase is Finished,
            old(self).goal is Generate,
        ensures
            r matches Ok(a) ==> final(self).wf() && final(self).asked(a),
            final(self).api == old(self).api,
            final(self).goal == old(self).goal,
            final(self).resolved == old(self).resolved,
            extends(old(self).resolved, final(self).resolved),
            !is_success(status) ==> (r matches Err(e) && reports_http(e, status, body, parsed)),
            r matches Err(e) ==> reports_http(e, status, body, parsed) || e is BadSubmitResponse,
            is_success(status) ==> (r is Ok <==> {
                &&& reply_text(parsed, "request_id"@) is Some
                &&& reply_text(parsed, "status_url"@) is Some
                &&& reply_text(parsed, "response_url"@) is Some
            }),
            r is Ok ==> (old(self).goal matches Goal::Generate { args, .. } && if args.no_wait {
                r matches Ok(Action::Print { value }) && parsed matches Some(p) && echoes_submit(
                    value,
                    p,
                )
            } else {
                final(self).phase matches Phase::Polling { task_id, started } && reply_text(
                    parsed,
                    "request_id"@,
                ) == Some(task_id@) && started == clock_nanos
            }),
    {
        proof {
            lemma_extends_refl(self.resolved);
        }
        let answer = decode_response(status, body, parsed)?;
        proof {
            if parsed is None {
                lemma_raw_reply(answer, body);
            }
        }
        let ghost document = answer;
        let submit = SubmitResponse::from_json(answer)?;
        let no_wait = match &self.goal {
            Goal::Generate { args, .. } => args.no_wait,
            _ => false,
        };
        if no_wait {
            self.phase = Phase::Finished;
            let value = submit.into_json();
            Ok(Action::Print { value })
        } else {
            self.task = Some(submit.request_id.clone());
            Ok(self.poll(submit.request_id, clock_nanos))
        }
    }

    /// A status document of task `task_id`, whose wait began at `started`, came back.
    fn on_status(
        &mut self,
        task_id: String,
        started: u128,
        status: u16,
        body: String,
        parsed: Option<Json>,
        clock_nanos: u128,
    ) -> (r: Result<Action, CliError>)
        requires
            old(self).waits_on(task_id),
            old(self).wf(),
            old(self).phase is Finished,
        ensures
            final(self).task == old(self).task,
            r matches Ok(a) ==> final(self).wf() && final(self).asked(a),
            final(self).api == old(self).api,
            final(self).goal == old(self).goal,
            final(self).resolved == old(self).resolved,
            extends(old(self).resolved, final(self).resolved),
            !is_success(status) && !reply_is_terminal(parsed) ==> (r matches Err(e) && reports_http(e, status, body, parsed)),
            is_success(status) || reply_is_terminal(parsed) ==> {
                if reply_text(parsed, "status"@) == Some("COMPLETED"@) {
                    r is Ok && final(self).phase == (Phase::Fetching { task_id })
                } else if reply_text(parsed, "status"@) == Some("FAILED"@) {
                    r matches Err(e) && e matches CliError::TaskFailed { detail } && parsed matches Some(
                        p,
                    ) && detail == member_or_whole(p, "error"@)
                } else if timed_out(elapsed_since(clock_nanos, started), old(self).limits().0) {
                    r matches Err(e) && e matches CliError::TaskTimedOut {
                        task_id: t,
                        max_wait_secs: w,
                    } && t@ == task_id@ && w == old(self).limits().0
                } else {
                    r matches Ok(Action::Sleep { .. }) && final(self).phase == (Phase::Sleeping {
                        task_id,
                        started,
                    })
                }
            },
    {
        proof {
            lemma_extends_refl(self.resolved);
        }
        let document = decode_response_terminal_tolerant(status, body, parsed)?;
        proof {
            if parsed is None {
                lemma_raw_reply(document, body);
            }
        }
        let elapsed = if clock_nanos >= started {
            clock_nanos - started
        } else {
            0
        };
        let (max_wait_secs, poll_interval_secs) = self.wait_limits();
        match next_poll_step(
            &self.api,
            task_id.as_str(),
            document,
            elapsed,
            max_wait_secs,
            poll_interval_secs,
        ) {
            PollStep::FetchResult { url } => {
                let request = self.api.get_json_request(url);
                self.phase = Phase::Fetching { task_id };
                Ok(Action::Send { request })
            },
            PollStep::Sleep { secs } => {
                self.phase = Phase::Sleeping { task_id, started };
                Ok(Action::Sleep { secs })
            },
            PollStep::Stop(e) => Err(e),
        }
    }

    /// The result of the finished task `task_id` came back.
    fn on_result(&mut self, task_id: String, status: u16, body: String, parsed: Option<Json>) -> (r:
        Result<Action, CliError>)
        requires
            old(self).waits_on(task_id),
            old(self).wf(),
            old(self).phase is Finished,
        ensures
            final(self).task == old(self).task,
            r matches Ok(a) ==> final(self).wf() && final(self).asked(a),
            final(self).api == old(self).api,
            final(self).goal == old(self).goal,
            final(self).resolved == old(self).resolved,
            extends(old(self).resolved, final(self).resolved),
            !is_success(status) && !reply_is_terminal(parsed) ==> (r matches Err(e) && reports_http(e, status, body, parsed)),
            is_success(status) || reply_is_terminal(parsed) ==> match old(self).out_path() {
                Some(out) => match reply_output_url(body@, parsed) {
                    Some(u) => r matches Ok(Action::Download { url, out: o }) && url@ == u && o == out,
                    None => r matches Err(e) && e is MissingOutputUrl,
                },
                None => r matches Ok(Action::Print { value }) && body_value(value, body, parsed),
            },
    {
        proof {
            lemma_extends_refl(self.resolved);
        }
        let result = decode_response_terminal_tolerant(status, body, parsed)?;
        proof {
            if parsed is None {
                lemma_raw_reply(result, body);
            }
        }
        match self.output_path() {
            Some(out) => {
                let url = require_output_url(&result)?;
                self.phase = Phase::Downloading { task_id, url: url.clone(), out: out.clone(), result };
                Ok(Action::Download { url, out })
            },
            None => {
                self.phase = Phase::Finished;
                Ok(Action::Print { value: result })
            },
        }
    }

    /// The output of task `task_id` from `url` is saved to `out`: report.
    fn on_downloaded(&mut self, task_id: String, url: String, out: String, result: Json) -> (r: Action)
        requires
            old(self).waits_on(task_id),
            old(self).wf(),
            old(self).phase is Finished,
        ensures
            final(self).task == old(self).task,
            final(self).wf() && final(self).asked(r),
            final(self).api == old(self).api,
            final(self).goal == old(self).goal,
            final(self).resolved == old(self).resolved,
            extends(old(self).resolved, final(self).resolved),
            r matches Action::Print { value } && if old(self).prints_raw() {
                value == result
            } else if old(self).goal is Generate {
                is_generate_summary(value, task_id, url, out)
            } else {
                is_wait_summary(value, task_id, url, out)
            },
    {
        proof {
            lemma_extends_refl(self.resolved);
        }
        let raw = self.raw_output();
        let value = if raw {
            result
        } else {
            match &self.goal {
                Goal::Generate { .. } => generate_summary(task_id, url, out),
                _ => wait_summary(task_id, url, out),
            }
        };
        self.phase = Phase::Finished;
        Action::Print { value }
    }
}

/// Every reference of `src` has its URL in `res`, and a remote one is kept as it was given.
pub open spec fn keeps_remote(src: Seq<String>, res: Seq<String>) -> bool {
    &&& res.len() == src.len()
    &&& forall|k: int|
        #![trigger res[k]]
        0 <= k < src.len() && is_remote(src[k]@) ==> res[k]@ == src[k]@
}

/// A frame has a URL exactly when it was given, and a remote one is kept as it was given.
pub open spec fn keeps_remote_frame(src: Option<String>, res: Option<String>) -> bool {
    &&& (res is Some <==> src is Some)
    &&& match src {
        Some(p) => is_remote(p@) ==> (res matches Some(u) && u@ == p@),
        None => true,
    }
}

/// Law: a job is submitted only once every reference of the request has its URL; the job
/// lists those URLs in the request's order, and a remote reference (an http, https or data
/// URL) is sent exactly as it was given.
pub proof fn lemma_submitted_job_keeps_remote_references(s: Session, a: Action)
    requires
        s.wf(),
        s.asked(a),
        s.phase is Submitting,
    ensures
        s.goal matches Goal::Generate { args, .. } && {
            &&& a matches Action::Send { request } && request.body matches Some(b) && is_generate_body(
                b,
                args,
                s.resolved.images@,
                s.resolved.videos@,
                s.resolved.audios@,
                s.resolved.first_frame,
                s.resolved.last_frame,
            )
            &&& keeps_remote(args.images@, s.resolved.images@)
            &&& keeps_remote(args.videos@, s.resolved.videos@)
            &&& keeps_remote(args.audios@, s.resolved.audios@)
            &&& keeps_remote_frame(args.first_frame, s.resolved.first_frame)
            &&& keeps_remote_frame(args.last_frame, s.resolved.last_frame)
        },
{
}

/// Law: a session waits on its task within the limits its request gave: for `generate`,
/// `--max-wait-secs` and `--poll-interval-secs`; for `task wait`, its own two.
pub proof fn lemma_limits_follow_request(s: Session)
    ensures
        s.goal matches Goal::Generate { args, .. } ==> s.limits() == (
            args.max_wait_secs,
            args.poll_interval_secs,
        ),
        s.goal matches Goal::Wait { max_wait_secs, poll_interval_secs, .. } ==> s.limits() == (
            max_wait_secs,
            poll_interval_secs,
        ),
{
}

} // verus!
