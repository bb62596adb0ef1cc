use seedance_cli::api::{
    decode_response, decode_response_terminal_tolerant, download_request, status_is_success,
    ApiClient, Method, SubmitResponse,
};
use seedance_cli::args::{resolve_model, validate_count, validate_generate, GenerateArgs};
use seedance_cli::body::{generate_request_body, generate_summary, upload_summary, wait_summary};
use seedance_cli::error::CliError;
use seedance_cli::json::{take_member_or_whole, Json};
use seedance_cli::media::{
    extract_output_url, find_media_url, first_uploaded_url, is_downloadable_url, is_remote_ref,
    require_output_url,
};
use seedance_cli::model::{Model, Resolution, Speed};
use seedance_cli::poll::{effective_poll_interval, next_poll_step, PollStep};
use seedance_cli::pricing::{csv_line, price_sheet, pricing_lines};
use seedance_cli::secret::{read_secret, secret_path};
use seedance_cli::text::{contains_ignore_ascii_case, lower_eq, starts_with, str_eq, trim, trim_end_matching};
use seedance_cli::upload::{
    data_url_from_encoded, file_to_data_url, mime_for_extension, mime_for_path, uploaded_url_for,
};

fn text(s: &str) -> Json {
    Json::Str(s.to_string())
}

fn object(entries: Vec<(&str, Json)>) -> Json {
    Json::Object(entries.into_iter().map(|(k, v)| (k.to_string(), v)).collect())
}

fn entries(v: &Json) -> &Vec<(String, Json)> {
    match v {
        Json::Object(m) => m,
        _ => panic!("expected an object"),
    }
}

fn strings(v: &Json) -> Vec<String> {
    match v {
        Json::Array(a) => a
            .iter()
            .map(|x| match x {
                Json::Str(s) => s.clone(),
                _ => panic!("expected a string"),
            })
            .collect(),
        _ => panic!("expected an array"),
    }
}

fn ready_args() -> GenerateArgs {
    let mut args = GenerateArgs::new("a cat".into());
    args.out = Some("cat.mp4".into());
    args
}

fn client() -> ApiClient {
    ApiClient::new("https://api.example.com//".into(), "https://store.example.com/".into(), "k".into())
}

#[test]
fn model_labels_and_resolution_names() {
    assert_eq!(Model::Mini.label(), "Seedance 2.0 Mini");
    assert_eq!(Model::Fast.label(), "Seedance 2.0 Fast");
    assert_eq!(Model::Standard.label(), "Seedance 2.0 Standard");
    assert_eq!(Resolution::R480p.as_str(), "480p");
    assert_eq!(Resolution::R720p.as_str(), "720p");
    assert_eq!(Resolution::R1080p.as_str(), "1080p");
    assert_eq!(Resolution::R4k.as_str(), "4k");
}

#[test]
fn model_and_speed_together_are_refused() {
    let mut args = ready_args();
    args.model = Some(Model::Fast);
    args.speed = Some(Speed::Standard);
    assert!(matches!(resolve_model(&args), Err(CliError::ModelAndSpeed)));
    args.speed = None;
    assert_eq!(resolve_model(&args).unwrap(), Model::Fast);
    args.model = None;
    args.speed = Some(Speed::Standard);
    assert_eq!(resolve_model(&args).unwrap(), Model::Standard);
}

#[test]
fn fast_rejects_4k_with_its_own_error() {
    let mut args = ready_args();
    args.resolution = Resolution::R4k;
    match validate_generate(&args, Model::Fast) {
        Err(CliError::UnsupportedResolution { model, resolution }) => {
            assert_eq!(model, Model::Fast);
            assert_eq!(resolution, Resolution::R4k);
        }
        other => panic!("unexpected {other:?}"),
    }
    args.resolution = Resolution::R480p;
    assert!(validate_generate(&args, Model::Fast).is_ok());
}

#[test]
fn every_allowed_duration_passes() {
    for d in [4u32, 5, 6, 8, 10, 12, 15] {
        let mut args = ready_args();
        args.duration_seconds = d;
        assert!(validate_generate(&args, Model::Mini).is_ok(), "duration {d}");
    }
    for d in [0u32, 3, 7, 9, 11, 13, 14, 16, 60] {
        let mut args = ready_args();
        args.duration_seconds = d;
        assert!(matches!(validate_generate(&args, Model::Mini), Err(CliError::UnsupportedDuration)));
    }
}

#[test]
fn validation_errors_come_in_order() {
    let mut args = ready_args();
    args.first_frame = Some("https://e.com/a.png".into());
    args.images = vec!["https://e.com/b.png".into()];
    args.last_frame = Some("https://e.com/c.png".into());
    assert!(matches!(validate_generate(&args, Model::Mini), Err(CliError::FirstFrameWithImages)));
    args.first_frame = None;
    assert!(matches!(
        validate_generate(&args, Model::Mini),
        Err(CliError::LastFrameWithoutFirstFrame)
    ));
}

#[test]
fn too_many_references_are_refused() {
    let mut args = ready_args();
    args.images = (0..10).map(|i| format!("https://e.com/{i}.png")).collect();
    match validate_generate(&args, Model::Mini) {
        Err(CliError::TooMany { name, got, max }) => {
            assert_eq!(name, "images");
            assert_eq!(got, 10);
            assert_eq!(max, 9);
        }
        other => panic!("unexpected {other:?}"),
    }
    let mut args = ready_args();
    args.audios = (0..4).map(|i| format!("https://e.com/{i}.mp3")).collect();
    assert!(matches!(
        validate_generate(&args, Model::Mini),
        Err(CliError::TooMany { got: 4, max: 3, .. })
    ));
    let three: Vec<String> = (0..3).map(|i| i.to_string()).collect();
    assert!(validate_count(&three, 3, "videos").is_ok());
    assert!(validate_count(&three, 2, "videos").is_err());
}

#[test]
fn out_is_required_unless_no_wait() {
    let mut args = ready_args();
    args.out = None;
    assert!(matches!(validate_generate(&args, Model::Mini), Err(CliError::MissingOut)));
    args.no_wait = true;
    assert!(validate_generate(&args, Model::Mini).is_ok());
}

#[test]
fn remote_references_pass_through() {
    assert!(is_remote_ref("http://e.com/a.png"));
    assert!(is_remote_ref("https://e.com/a.png"));
    assert!(is_remote_ref("data:image/png;base64,AAAA"));
    assert!(!is_remote_ref("./a.png"));
    assert!(!is_remote_ref("HTTPS://e.com/a.png"));
}

#[test]
fn downloadable_urls_ignore_case_of_extension() {
    assert!(is_downloadable_url("https://e.com/v/OUT.MP4"));
    assert!(is_downloadable_url("http://e.com/x.webm?sig=1"));
    assert!(is_downloadable_url("https://e.com/a.mkv"));
    assert!(is_downloadable_url("https://e.com/a.avi"));
    assert!(is_downloadable_url("https://e.com/a.MoV"));
    assert!(!is_downloadable_url("https://e.com/a.png"));
    assert!(!is_downloadable_url("ftp://e.com/a.mp4"));
    assert!(!is_downloadable_url("/local/a.mp4"));
}

#[test]
fn media_search_prefers_named_keys_then_entries() {
    let v = object(vec![
        ("zzz", text("https://e.com/first-entry.mp4")),
        ("result", text("https://e.com/preferred.mp4")),
    ]);
    assert_eq!(find_media_url(&v).as_deref(), Some("https://e.com/preferred.mp4"));
    let v = object(vec![
        ("a", text("not a url")),
        ("b", Json::Array(vec![Json::Null, text("https://e.com/in-array.mov")])),
    ]);
    assert_eq!(find_media_url(&v).as_deref(), Some("https://e.com/in-array.mov"));
    let v = object(vec![("url", text("https://e.com/picture.png")), ("n", Json::Int(3))]);
    assert_eq!(find_media_url(&v), None);
}

#[test]
fn output_is_searched_only_under_output_when_present() {
    let result = object(vec![
        ("output", text("no video here")),
        ("video", text("https://e.com/outside.mp4")),
    ]);
    assert_eq!(extract_output_url(&result), None);
    assert!(matches!(require_output_url(&result), Err(CliError::MissingOutputUrl)));
    let result = object(vec![("video", text("https://e.com/outside.mp4"))]);
    assert_eq!(require_output_url(&result).unwrap(), "https://e.com/outside.mp4");
}

#[test]
fn upload_answer_falls_back_to_url() {
    let response = object(vec![("file_urls", Json::Array(vec![])), ("url", text("https://s/b.png"))]);
    assert_eq!(first_uploaded_url(&response).as_deref(), Some("https://s/b.png"));
    let response = object(vec![("file_urls", Json::Array(vec![Json::Int(1)]))]);
    assert_eq!(first_uploaded_url(&response), None);
    match uploaded_url_for("./a.png", &response) {
        Err(CliError::MissingUploadUrl { path }) => assert_eq!(path, "./a.png"),
        other => panic!("unexpected {other:?}"),
    }
}

#[test]
fn endpoints_ignore_trailing_slashes() {
    let api = client();
    assert_eq!(api.status_url("req_1"), "https://api.example.com/v2/requests/req_1/status");
    assert_eq!(api.response_url("req_1"), "https://api.example.com/v2/requests/req_1");
    assert_eq!(api.submit_url("seedance-2.0-mini"), "https://api.example.com/v2/seedance-2.0-mini");
    assert_eq!(api.upload_url(), "https://store.example.com/upload-asset");
}

#[test]
fn requests_carry_the_api_key() {
    let api = client();
    let r = api.submit_request("seedance-2.0", object(vec![]));
    assert_eq!(r.method, Method::Post);
    assert_eq!(r.url, "https://api.example.com/v2/seedance-2.0");
    let headers: Vec<(&str, &str)> = r.headers.iter().map(|(a, b)| (a.as_str(), b.as_str())).collect();
    assert_eq!(
        headers,
        vec![("accept", "application/json"), ("content-type", "application/json"), ("x-api-key", "k")]
    );
    let g = api.get_json_request("https://x".into());
    assert_eq!(g.method, Method::Get);
    assert_eq!(g.headers.len(), 2);
    assert!(g.body.is_none());
    let d = download_request("https://x/v.mp4".into());
    assert!(d.headers.is_empty());
}

#[test]
fn upload_request_wraps_the_data_url() {
    let api = client();
    let r = api.upload_request("data:image/png;base64,aGk=".into());
    assert_eq!(r.url, "https://store.example.com/upload-asset");
    let body = r.body.unwrap();
    let m = entries(&body);
    assert_eq!(m.len(), 1);
    assert_eq!(m[0].0, "data_urls");
    assert_eq!(strings(&m[0].1), vec!["data:image/png;base64,aGk=".to_string()]);
}

#[test]
fn data_urls_are_base64() {
    assert_eq!(file_to_data_url("image/png", b"hi"), "data:image/png;base64,aGk=");
    assert_eq!(file_to_data_url("video/mp4", b""), "data:video/mp4;base64,");
    assert_eq!(file_to_data_url("audio/mpeg", &[0xff, 0xfe, 0x00]), "data:audio/mpeg;base64,//4A");
    assert_eq!(data_url_from_encoded("image/gif", "R0lG"), "data:image/gif;base64,R0lG");
    assert!(is_remote_ref(&file_to_data_url("image/png", b"abc")));
}

#[test]
fn mime_types_follow_the_extension() {
    assert_eq!(mime_for_path("shots/clip.MOV").unwrap(), "video/quicktime");
    assert_eq!(mime_for_path("a.b/photo.jpeg").unwrap(), "image/jpeg");
    assert_eq!(mime_for_path("voice.mp3").unwrap(), "audio/mpeg");
    match mime_for_path("notes.txt") {
        Err(CliError::UnsupportedMediaExtension { path }) => assert_eq!(path, "notes.txt"),
        other => panic!("unexpected {other:?}"),
    }
    assert!(mime_for_path("README").is_err());
    assert!(mime_for_path(".png").is_err());
    assert!(mime_for_path("shots/.mp4").is_err());
    assert_eq!(mime_for_path("a..png").unwrap(), "image/png");
    assert_eq!(mime_for_path("a..PNG").unwrap(), mime_for_path("b..png").unwrap());
    assert_eq!(mime_for_path("clips/..webm").unwrap(), "video/webm");
    assert_eq!(mime_for_extension("SVGZ"), Some("image/svg+xml"));
    assert_eq!(mime_for_extension("tif"), Some("image/tiff"));
    assert_eq!(mime_for_extension("mpg"), Some("video/mpeg"));
    assert_eq!(mime_for_extension("pjp"), Some("image/jpeg"));
    assert_eq!(mime_for_extension(""), None);
}

#[test]
fn responses_decode_by_status() {
    let ok = decode_response(200, "{}".into(), Some(object(vec![]))).unwrap();
    assert!(entries(&ok).is_empty());
    match decode_response(404, "nope".into(), None) {
        Err(CliError::Http { status, body }) => {
            assert_eq!(status, 404);
            let m = entries(&body);
            assert_eq!(m[0].0, "raw");
            assert!(matches!(&m[0].1, Json::Str(s) if s == "nope"));
        }
        other => panic!("unexpected {other:?}"),
    }
    assert!(status_is_success(299));
    assert!(!status_is_success(300));
    assert!(!status_is_success(199));
}

#[test]
fn terminal_status_survives_an_error_code() {
    let done = object(vec![("status", text("COMPLETED"))]);
    assert!(decode_response_terminal_tolerant(500, "".into(), Some(done)).is_ok());
    let failed = object(vec![("status", text("FAILED"))]);
    assert!(decode_response_terminal_tolerant(400, "".into(), Some(failed)).is_ok());
    let running = object(vec![("status", text("IN_PROGRESS"))]);
    assert!(decode_response_terminal_tolerant(502, "".into(), Some(running)).is_err());
    assert!(decode_response_terminal_tolerant(502, "COMPLETED".into(), None).is_err());
}

#[test]
fn submit_answer_round_trip() {
    let answer = object(vec![
        ("request_id", text("req_9")),
        ("status", text("QUEUED")),
        ("status_url", text("https://s/status")),
        ("response_url", text("https://s/response")),
    ]);
    let submit = SubmitResponse::from_json(answer).unwrap();
    assert_eq!(submit.request_id, "req_9");
    assert_eq!(submit.status_url, "https://s/status");
    assert_eq!(submit.response_url, "https://s/response");
    assert_eq!(submit.extra.len(), 1);
    assert_eq!(submit.extra[0].0, "status");
    let again = SubmitResponse::from_json(submit.into_json()).unwrap();
    assert_eq!(again.request_id, "req_9");
    assert_eq!(again.extra.len(), 1);
    let missing = object(vec![("request_id", text("r")), ("status_url", text("s"))]);
    assert!(matches!(SubmitResponse::from_json(missing), Err(CliError::BadSubmitResponse)));
    assert!(matches!(SubmitResponse::from_json(text("x")), Err(CliError::BadSubmitResponse)));
}

#[test]
fn polling_decides_by_status() {
    let api = client();
    let done = object(vec![("status", text("COMPLETED"))]);
    match next_poll_step(&api, "t1", done, u128::MAX, 0, 0) {
        PollStep::FetchResult { url } => assert_eq!(url, "https://api.example.com/v2/requests/t1"),
        other => panic!("unexpected {other:?}"),
    }
    let failed = object(vec![("status", text("FAILED")), ("error", text("boom"))]);
    match next_poll_step(&api, "t1", failed, 0, 900, 2) {
        PollStep::Stop(CliError::TaskFailed { detail: Json::Str(s) }) => assert_eq!(s, "boom"),
        other => panic!("unexpected {other:?}"),
    }
    let failed = object(vec![("status", text("FAILED"))]);
    match next_poll_step(&api, "t1", failed, 0, 900, 2) {
        PollStep::Stop(CliError::TaskFailed { detail }) => assert_eq!(entries(&detail).len(), 1),
        other => panic!("unexpected {other:?}"),
    }
    let running = object(vec![("status", text("IN_PROGRESS"))]);
    match next_poll_step(&api, "t1", running, 5_000_000_000, 5, 2) {
        PollStep::Stop(CliError::TaskTimedOut { task_id, max_wait_secs }) => {
            assert_eq!(task_id, "t1");
            assert_eq!(max_wait_secs, 5);
        }
        other => panic!("unexpected {other:?}"),
    }
    let running = object(vec![("status", text("IN_PROGRESS"))]);
    assert!(matches!(
        next_poll_step(&api, "t1", running, 4_999_999_999, 5, 0),
        PollStep::Sleep { secs: 1 }
    ));
    assert!(matches!(next_poll_step(&api, "t1", Json::Null, 0, 5, 7), PollStep::Sleep { secs: 7 }));
    assert_eq!(effective_poll_interval(0), 1);
    assert_eq!(effective_poll_interval(3), 3);
}

#[test]
fn failure_detail_is_the_error_member_or_the_whole_status() {
    match take_member_or_whole(object(vec![("error", Json::Int(7)), ("x", Json::Null)]), "error") {
        Json::Int(7) => {}
        other => panic!("unexpected {other:?}"),
    }
    match take_member_or_whole(Json::Bool(true), "error") {
        Json::Bool(true) => {}
        other => panic!("unexpected {other:?}"),
    }
}

#[test]
fn secrets_are_trimmed_and_fall_back_to_the_file() {
    assert_eq!(read_secret("K", Some("  abc \n"), Some("file")).unwrap(), "abc");
    assert_eq!(read_secret("K", Some(" \t "), Some("\u{a0}xyz\u{3000}")).unwrap(), "xyz");
    assert_eq!(read_secret("K", None, Some("from-file\n")).unwrap(), "from-file");
    match read_secret("SEGMIND_API_KEY", None, Some("   ")) {
        Err(CliError::MissingSecret { name }) => assert_eq!(name, "SEGMIND_API_KEY"),
        other => panic!("unexpected {other:?}"),
    }
    assert_eq!(secret_path("SEGMIND_API_KEY"), "/run/secrets/SEGMIND_API_KEY");
}

#[test]
fn text_helpers() {
    assert_eq!(trim("\u{2003} a b \u{85}"), "a b");
    assert_eq!(trim("   "), "");
    assert_eq!(trim_end_matching("a///", '/'), "a");
    assert_eq!(trim_end_matching("/", '/'), "");
    assert!(starts_with("abc", "ab"));
    assert!(!starts_with("a", "ab"));
    assert!(contains_ignore_ascii_case("xx.MP4yy", ".mp4"));
    assert!(!contains_ignore_ascii_case("xx.mp", ".mp4"));
    assert!(lower_eq("JPEG", "jpeg"));
    assert!(!lower_eq("JPEG", "jpg"));
    assert!(str_eq("é", "é"));
    assert!(!str_eq("a", "b"));
}

#[test]
fn generate_body_lists_every_setting() {
    let mut args = ready_args();
    args.first_frame = Some("https://e.com/f.png".into());
    args.last_frame = Some("https://e.com/l.png".into());
    args.seed = 42;
    args.resolution = Resolution::R480p;
    args.duration_seconds = 10;
    let body = generate_request_body(
        &args,
        vec![],
        vec!["https://e.com/m.mp4".into()],
        vec![],
        Some("https://e.com/f.png".into()),
        Some("https://e.com/l.png".into()),
    );
    let m = entries(&body);
    let keys: Vec<&str> = m.iter().map(|(k, _)| k.as_str()).collect();
    assert_eq!(
        keys,
        vec![
            "prompt",
            "reference_images",
            "reference_videos",
            "reference_audios",
            "duration",
            "resolution",
            "aspect_ratio",
            "generate_audio",
            "seed",
            "return_last_frame",
            "skip_moderation",
            "first_frame_url",
            "last_frame_url",
        ]
    );
    assert!(matches!(&m[0].1, Json::Str(s) if s == "a cat"));
    assert_eq!(strings(&m[2].1), vec!["https://e.com/m.mp4".to_string()]);
    assert!(matches!(m[4].1, Json::Int(10)));
    assert!(matches!(&m[5].1, Json::Str(s) if s == "480p"));
    assert!(matches!(&m[6].1, Json::Str(s) if s == "16:9"));
    assert!(matches!(m[7].1, Json::Bool(true)));
    assert!(matches!(m[8].1, Json::Int(42)));
    assert!(matches!(&m[12].1, Json::Str(s) if s == "https://e.com/l.png"));
    let plain = generate_request_body(&ready_args(), vec![], vec![], vec![], None, None);
    assert_eq!(entries(&plain).len(), 11);
}

#[test]
fn summaries() {
    let s = generate_summary("t".into(), "https://u/v.mp4".into(), "v.mp4".into());
    let keys: Vec<&str> = entries(&s).iter().map(|(k, _)| k.as_str()).collect();
    assert_eq!(keys, vec!["task_id", "status", "output_url", "out"]);
    assert!(matches!(&entries(&s)[1].1, Json::Str(x) if x == "COMPLETED"));
    let w = wait_summary("t".into(), "https://u/v.mp4".into(), "v.mp4".into());
    assert_eq!(entries(&w).len(), 3);
    let u = upload_summary(vec!["a".into(), "b".into()], vec![], vec!["c".into()]);
    assert_eq!(strings(&entries(&u)[0].1), vec!["a".to_string(), "b".to_string()]);
    assert_eq!(strings(&entries(&u)[2].1), vec!["c".to_string()]);
}

#[test]
fn pricing_notes() {
    let sheet = price_sheet();
    assert_eq!(sheet.len(), 9);
    let lines = pricing_lines(&sheet);
    assert_eq!(lines[0], "Seedance 2.0 Segmind reference pricing, USD/sec.");
    assert_eq!(lines[2], "");
    assert_eq!(lines[3], "mini text/image-to-video per-second rates");
    assert_eq!(lines[4], "resolution,16:9,4:3,1:1,3:4,9:16,21:9");
    assert_eq!(lines[5], "480p,0.0352,0.0345,0.0336,0.0345,0.0352,0.0352");
    assert_eq!(lines[8], "mini video-to-video typical rates");
    assert_eq!(lines[10], "480p,~0.045,0.035-0.065");
    assert!(lines.contains(&"standard quick cost examples".to_string()));
    assert!(lines.contains(&"Text / Image-to-video,4k,16:9,5s,6.86".to_string()));
    assert_eq!(lines.last().unwrap(), "");
    let per_table: usize = sheet.iter().map(|t| t.rows.len() + 3).sum();
    assert_eq!(lines.len(), 3 + per_table);
    assert_eq!(csv_line(&vec!["a", "", "c"]), "a,,c");
    assert_eq!(csv_line(&vec![]), "");
}
