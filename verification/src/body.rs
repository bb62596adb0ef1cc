use vstd::prelude::*;

use crate::args::GenerateArgs;
use crate::json::{distinct_keys, Json};
use crate::model::resolution_name;

verus! {

/// Entry `i` of `m` is `key` with value `value`.
pub open spec fn entry_is(m: Seq<(String, Json)>, i: int, key: Seq<char>, value: Json) -> bool {
    0 <= i < m.len() && m[i].0@ == key && m[i].1 == value
}

/// `v` is the array of the strings `items`, in order.
pub open spec fn string_array(v: Json, items: Seq<String>) -> bool {
    v matches Json::Array(a) && a@.len() == items.len() && forall|i: int|
        #![trigger a@[i]]
        0 <= i < items.len() ==> a@[i] == Json::Str(items[i])
}

/// Entry `i` of `m` is `key` with the array of `items` as its value.
pub open spec fn entry_is_strings(
    m: Seq<(String, Json)>,
    i: int,
    key: Seq<char>,
    items: Seq<String>,
) -> bool {
    0 <= i < m.len() && m[i].0@ == key && string_array(m[i].1, items)
}

/// 1 when `o` holds something, else 0.
pub open spec fn present<T>(o: Option<T>) -> int {
    if o is Some {
        1
    } else {
        0
    }
}

/// The array of the strings `items`, in order.
pub fn strings_to_json(items: Vec<String>) -> (r: Json)
    ensures
        string_array(r, items@),
        r.well_formed(),
{
    let ghost all = items@;
    let mut a: Vec<Json> = Vec::new();
    for s in it: items.into_iter()
        invariant
            it.seq() == all,
            a@.len() == it.index(),
            forall|i: int| #![trigger a@[i]] 0 <= i < a@.len() ==> a@[i] == Json::Str(all[i]),
    {
        a.push(Json::Str(s));
    }
    let r = Json::Array(a);
    proof {
        lemma_string_array_well_formed(r, all);
    }
    r
}

fn entry(key: &str, value: Json) -> (r: (String, Json))
    ensures
        r.0@ == key@,
        r.1 == value,
{
    (key.to_owned(), value)
}

/// `r` is the job a generate request for `args` submits, with its references turned into
/// the URLs given: the settings, in order, then the frame URLs that are present.
pub open spec fn is_generate_body(
    r: Json,
    args: GenerateArgs,
    reference_images: Seq<String>,
    reference_videos: Seq<String>,
    reference_audios: Seq<String>,
    first_frame_url: Option<String>,
    last_frame_url: Option<String>,
) -> bool {
    r matches Json::Object(m) && {
        &&& m@.len() == 11 + present(first_frame_url) + present(last_frame_url)
        &&& entry_is(m@, 0, "prompt"@, Json::Str(args.prompt))
        &&& entry_is_strings(m@, 1, "reference_images"@, reference_images)
        &&& entry_is_strings(m@, 2, "reference_videos"@, reference_videos)
        &&& entry_is_strings(m@, 3, "reference_audios"@, reference_audios)
        &&& entry_is(m@, 4, "duration"@, Json::Int(args.duration_seconds as i64))
        &&& m@[5].0@ == "resolution"@ && (m@[5].1 matches Json::Str(s) && s@ == resolution_name(
            args.resolution,
        ))
        &&& entry_is(m@, 6, "aspect_ratio"@, Json::Str(args.aspect_ratio))
        &&& entry_is(
            m@,
            7,
            "generate_audio"@,
            Json::Bool(args.generate_audio && !args.no_generate_audio),
        )
        &&& entry_is(m@, 8, "seed"@, Json::Int(args.seed))
        &&& entry_is(m@, 9, "return_last_frame"@, Json::Bool(args.return_last_frame))
        &&& entry_is(m@, 10, "skip_moderation"@, Json::Bool(args.skip_moderation))
        &&& (first_frame_url matches Some(u) ==> entry_is(m@, 11, "first_frame_url"@, Json::Str(u)))
        &&& (last_frame_url matches Some(u) ==> entry_is(
            m@,
            11 + present(first_frame_url),
            "last_frame_url"@,
            Json::Str(u),
        ))
    }
}

/// The job a generate request submits, with its references already turned into URLs.
pub fn generate_request_body(
    args: &GenerateArgs,
    reference_images: Vec<String>,
    reference_videos: Vec<String>,
    reference_audios: Vec<String>,
    first_frame_url: Option<String>,
    last_frame_url: Option<String>,
) -> (r: Json)
    ensures
        is_generate_body(
            r,
            *args,
            reference_images@,
            reference_videos@,
            reference_audios@,
            first_frame_url,
            last_frame_url,
        ),
        r.well_formed(),
{
    let ghost (ri, rv, ra) = (reference_images@, reference_videos@, reference_audios@);
    let mut m: Vec<(String, Json)> = Vec::new();
    m.push(entry("prompt", Json::Str(args.prompt.clone())));
    m.push(entry("reference_images", strings_to_json(reference_images)));
    m.push(entry("reference_videos", strings_to_json(reference_videos)));
    m.push(entry("reference_audios", strings_to_json(reference_audios)));
    m.push(entry("duration", Json::Int(args.duration_seconds as i64)));
    m.push(entry("resolution", Json::Str(args.resolution.as_str().to_owned())));
    m.push(entry("aspect_ratio", Json::Str(args.aspect_ratio.clone())));
    m.push(entry("generate_audio", Json::Bool(args.audio_enabled())));
    m.push(entry("seed", Json::Int(args.seed)));
    m.push(entry("return_last_frame", Json::Bool(args.return_last_frame)));
    m.push(entry("skip_moderation", Json::Bool(args.skip_moderation)));
    let ghost base = m@;
    match first_frame_url {
        Some(u) => m.push(entry("first_frame_url", Json::Str(u))),
        None => {},
    }
    let ghost mid = m@;
    match last_frame_url {
        Some(u) => m.push(entry("last_frame_url", Json::Str(u))),
        None => {},
    }
    assert(forall|i: int| 0 <= i < 11 ==> m@[i] == base[i]);
    let r = Json::Object(m);
    proof {
        lemma_generate_body_well_formed(
            r,
            *args,
            ri,
            rv,
            ra,
            first_frame_url,
            last_frame_url,
        );
    }
    r
}

/// `r` is what the upload command prints for these URLs.
pub open spec fn is_upload_summary(
    r: Json,
    reference_images: Seq<String>,
    reference_videos: Seq<String>,
    reference_audios: Seq<String>,
) -> bool {
    r matches Json::Object(m) && {
        &&& m@.len() == 3
        &&& entry_is_strings(m@, 0, "reference_images"@, reference_images)
        &&& entry_is_strings(m@, 1, "reference_videos"@, reference_videos)
        &&& entry_is_strings(m@, 2, "reference_audios"@, reference_audios)
    }
}

/// `r` is what `generate` prints once the video of task `task_id` from `output_url` is saved
/// to `out`.
pub open spec fn is_generate_summary(r: Json, task_id: String, output_url: String, out: String) -> bool {
    r matches Json::Object(m) && {
        &&& m@.len() == 4
        &&& entry_is(m@, 0, "task_id"@, Json::Str(task_id))
        &&& m@[1].0@ == "status"@ && (m@[1].1 matches Json::Str(s) && s@ == "COMPLETED"@)
        &&& entry_is(m@, 2, "output_url"@, Json::Str(output_url))
        &&& entry_is(m@, 3, "out"@, Json::Str(out))
    }
}

/// `r` is what `task wait` prints once the video of task `task_id` from `output_url` is saved
/// to `out`.
pub open spec fn is_wait_summary(r: Json, task_id: String, output_url: String, out: String) -> bool {
    r matches Json::Object(m) && {
        &&& m@.len() == 3
        &&& entry_is(m@, 0, "task_id"@, Json::Str(task_id))
        &&& entry_is(m@, 1, "output_url"@, Json::Str(output_url))
        &&& entry_is(m@, 2, "out"@, Json::Str(out))
    }
}

/// What the upload command prints: the URLs of each kind of reference.
pub fn upload_summary(
    reference_images: Vec<String>,
    reference_videos: Vec<String>,
    reference_audios: Vec<String>,
) -> (r: Json)
    ensures
        is_upload_summary(r, reference_images@, reference_videos@, reference_audios@),
        r.well_formed(),
{
    let mut m: Vec<(String, Json)> = Vec::new();
    m.push(entry("reference_images", strings_to_json(reference_images)));
    m.push(entry("reference_videos", strings_to_json(reference_videos)));
    m.push(entry("reference_audios", strings_to_json(reference_audios)));
    let r = Json::Object(m);
    proof {
        lemma_upload_summary_well_formed(r, reference_images@, reference_videos@, reference_audios@);
    }
    r
}

/// What `generate` prints once the video is saved.
pub fn generate_summary(task_id: String, output_url: String, out: String) -> (r: Json)
    ensures
        is_generate_summary(r, task_id, output_url, out),
        r.well_formed(),
{
    let mut m: Vec<(String, Json)> = Vec::new();
    m.push(entry("task_id", Json::Str(task_id)));
    m.push(entry("status", Json::Str("COMPLETED".to_owned())));
    m.push(entry("output_url", Json::Str(output_url)));
    m.push(entry("out", Json::Str(out)));
    let r = Json::Object(m);
    proof {
        lemma_summary_well_formed(r, task_id, output_url, out);
    }
    r
}

/// What `task wait` prints once the video is saved.
pub fn wait_summary(task_id: String, output_url: String, out: String) -> (r: Json)
    ensures
        is_wait_summary(r, task_id, output_url, out),
        r.well_formed(),
{
    let mut m: Vec<(String, Json)> = Vec::new();
    m.push(entry("task_id", Json::Str(task_id)));
    m.push(entry("output_url", Json::Str(output_url)));
    m.push(entry("out", Json::Str(out)));
    let r = Json::Object(m);
    proof {
        lemma_summary_well_formed(r, task_id, output_url, out);
    }
    r
}

proof fn lemma_string_array_well_formed(v: Json, items: Seq<String>)
    requires
        string_array(v, items),
    ensures
        v.well_formed(),
{
    let a = v->Array_0;
    assert forall|i: int| #![trigger a@[i]] 0 <= i < a@.len() implies a@[i].well_formed() by {
        assert(a@[i] == Json::Str(items[i]));
    }
}

/// Law: the job a generate request submits is a well-formed document: no key twice.
pub proof fn lemma_generate_body_well_formed(
    r: Json,
    args: GenerateArgs,
    reference_images: Seq<String>,
    reference_videos: Seq<String>,
    reference_audios: Seq<String>,
    first_frame_url: Option<String>,
    last_frame_url: Option<String>,
)
    requires
        is_generate_body(
            r,
            args,
            reference_images,
            reference_videos,
            reference_audios,
            first_frame_url,
            last_frame_url,
        ),
    ensures
        r.well_formed(),
{
    let m = r->Object_0@;
    reveal_strlit("prompt");
    reveal_strlit("reference_images");
    reveal_strlit("reference_videos");
    reveal_strlit("reference_audios");
    reveal_strlit("duration");
    reveal_strlit("resolution");
    reveal_strlit("aspect_ratio");
    reveal_strlit("generate_audio");
    reveal_strlit("seed");
    reveal_strlit("return_last_frame");
    reveal_strlit("skip_moderation");
    reveal_strlit("first_frame_url");
    reveal_strlit("last_frame_url");
    assert("reference_images"@[10] != "reference_videos"@[10]);
    assert("reference_images"@[10] != "reference_audios"@[10]);
    assert("reference_videos"@[10] != "reference_audios"@[10]);
    assert("skip_moderation"@[0] != "first_frame_url"@[0]);
    assert("generate_audio"@[0] != "last_frame_url"@[0]);
    let ks = seq![
        "prompt"@,
        "reference_images"@,
        "reference_videos"@,
        "reference_audios"@,
        "duration"@,
        "resolution"@,
        "aspect_ratio"@,
        "generate_audio"@,
        "seed"@,
        "return_last_frame"@,
        "skip_moderation"@,
    ];
    let extra = if first_frame_url is Some {
        if last_frame_url is Some {
            seq!["first_frame_url"@, "last_frame_url"@]
        } else {
            seq!["first_frame_url"@]
        }
    } else if last_frame_url is Some {
        seq!["last_frame_url"@]
    } else {
        seq![]
    };
    let all = ks + extra;
    assert(all.len() == m.len());
    assert forall|i: int| #![trigger m[i]] 0 <= i < m.len() implies m[i].0@ == all[i] by {}
    assert forall|i: int, j: int| 0 <= i < j < all.len() implies #[trigger] all[i] != #[trigger] all[j] by {
        if all[i] == all[j] {
            assert(all[i].len() == all[j].len());
            assert(all[i][0] == all[j][0]);
            assert(all[i][10] == all[j][10]);
        }
    }
    assert(distinct_keys(m)) by {
        assert forall|i: int, j: int| 0 <= i < j < m.len() implies #[trigger] m[i].0@ != #[trigger] m[j].0@ by {
            assert(m[i].0@ == all[i] && m[j].0@ == all[j]);
        }
    }
    lemma_string_array_well_formed(m[1].1, reference_images);
    lemma_string_array_well_formed(m[2].1, reference_videos);
    lemma_string_array_well_formed(m[3].1, reference_audios);
    assert forall|i: int| #![trigger m[i]] 0 <= i < m.len() implies m[i].1.well_formed() by {
        if i == 5 {
            assert(m[5].1 is Str);
        }
    }
}

/// Law: what the upload command prints is a well-formed document.
pub proof fn lemma_upload_summary_well_formed(
    r: Json,
    reference_images: Seq<String>,
    reference_videos: Seq<String>,
    reference_audios: Seq<String>,
)
    requires
        is_upload_summary(r, reference_images, reference_videos, reference_audios),
    ensures
        r.well_formed(),
{
    let m = r->Object_0@;
    reveal_strlit("reference_images");
    reveal_strlit("reference_videos");
    reveal_strlit("reference_audios");
    assert("reference_images"@[10] != "reference_videos"@[10]);
    assert("reference_images"@[10] != "reference_audios"@[10]);
    assert("reference_videos"@[10] != "reference_audios"@[10]);
    assert(distinct_keys(m));
    lemma_string_array_well_formed(m[0].1, reference_images);
    lemma_string_array_well_formed(m[1].1, reference_videos);
    lemma_string_array_well_formed(m[2].1, reference_audios);
    assert forall|i: int| #![trigger m[i]] 0 <= i < m.len() implies m[i].1.well_formed() by {}
}

/// Law: the summaries printed once a video is saved are well-formed documents.
pub proof fn lemma_summary_well_formed(r: Json, task_id: String, output_url: String, out: String)
    requires
        is_generate_summary(r, task_id, output_url, out) || is_wait_summary(
            r,
            task_id,
            output_url,
            out,
        ),
    ensures
        r.well_formed(),
{
    let m = r->Object_0@;
    reveal_strlit("task_id");
    reveal_strlit("status");
    reveal_strlit("output_url");
    reveal_strlit("out");
    assert("task_id"@.len() == 7 && "status"@.len() == 6 && "output_url"@.len() == 10
        && "out"@.len() == 3);
    if is_generate_summary(r, task_id, output_url, out) {
        assert(m[0].0@.len() == 7 && m[1].0@.len() == 6 && m[2].0@.len() == 10 && m[3].0@.len() == 3);
    } else {
        assert(m[0].0@.len() == 7 && m[1].0@.len() == 10 && m[2].0@.len() == 3);
    }
    assert(distinct_keys(m));
    assert forall|i: int| #![trigger m[i]] 0 <= i < m.len() implies m[i].1.well_formed() by {
        if is_generate_summary(r, task_id, output_url, out) && i == 1 {
            assert(m[1].1 is Str);
        }
    }
}

} // verus!
