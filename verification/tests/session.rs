use seedance_cli::api::{ApiClient, HttpRequest, Method};
use seedance_cli::args::GenerateArgs;
use seedance_cli::error::CliError;
use seedance_cli::flow::{Action, Event, Session};
use seedance_cli::json::Json;
use seedance_cli::model::{Model, Speed};

fn text(s: &str) -> Json {
    Json::Str(s.to_string())
}

fn object(entries: Vec<(&str, Json)>) -> Json {
    Json::Object(entries.into_iter().map(|(k, v)| (k.to_string(), v)).collect())
}

fn client() -> ApiClient {
    ApiClient::new("https://api.example.com/".into(), "https://store.example.com".into(), "key".into())
}

fn reply(doc: Json, clock_nanos: u128) -> Event {
    Event::Replied { status: 200, body: String::new(), parsed: Some(doc), clock_nanos }
}

fn sent(action: Action) -> HttpRequest {
    match action {
        Action::Send { request } => request,
        other => panic!("expected a request, got {other:?}"),
    }
}

fn member<'a>(doc: &'a Json, key: &str) -> &'a Json {
    doc.get(key).unwrap_or_else(|| panic!("missing {key}"))
}

fn strings(v: &Json) -> Vec<String> {
    match v {
        Json::Array(a) => a
            .iter()
            .map(|x| x.as_str().expect("string").to_string())
            .collect(),
        _ => panic!("expected an array"),
    }
}

#[test]
fn generate_session_runs_end_to_end() {
    let mut args = GenerateArgs::new("a fox".into());
    args.images = vec!["https://e.com/a.png".into(), "shots/local.PNG".into()];
    args.out = Some("out/fox.mp4".into());
    let (mut s, a) = Session::generate(client(), args, false).unwrap();
    match a {
        Action::CheckFile { path } => assert_eq!(path, "shots/local.PNG"),
        other => panic!("unexpected {other:?}"),
    }
    match s.step(Event::FileChecked).unwrap() {
        Action::ReadFile { path } => assert_eq!(path, "shots/local.PNG"),
        other => panic!("unexpected {other:?}"),
    }
    let upload = sent(s.step(Event::FileRead { bytes: b"hi".to_vec() }).unwrap());
    assert_eq!(upload.method, Method::Post);
    assert_eq!(upload.url, "https://store.example.com/upload-asset");
    let body = upload.body.unwrap();
    assert_eq!(strings(member(&body, "data_urls")), vec!["data:image/png;base64,aGk=".to_string()]);

    let answer = object(vec![("file_urls", Json::Array(vec![text("https://s.com/u.png")]))]);
    let submit = sent(s.step(reply(answer, 5)).unwrap());
    assert_eq!(submit.url, "https://api.example.com/v2/seedance-2.0-mini");
    let job = submit.body.unwrap();
    assert_eq!(
        strings(member(&job, "reference_images")),
        vec!["https://e.com/a.png".to_string(), "https://s.com/u.png".to_string()]
    );
    assert!(matches!(member(&job, "generate_audio"), Json::Bool(true)));

    let accepted = object(vec![
        ("request_id", text("req_1")),
        ("status_url", text("https://x/s")),
        ("response_url", text("https://x/r")),
    ]);
    let poll = sent(s.step(reply(accepted, 10)).unwrap());
    assert_eq!(poll.method, Method::Get);
    assert_eq!(poll.url, "https://api.example.com/v2/requests/req_1/status");

    match s.step(reply(object(vec![("status", text("IN_PROGRESS"))]), 20)).unwrap() {
        Action::Sleep { secs } => assert_eq!(secs, 2),
        other => panic!("unexpected {other:?}"),
    }
    let poll = sent(s.step(Event::Slept).unwrap());
    assert_eq!(poll.url, "https://api.example.com/v2/requests/req_1/status");
    let fetch = sent(s.step(reply(object(vec![("status", text("COMPLETED"))]), 30)).unwrap());
    assert_eq!(fetch.url, "https://api.example.com/v2/requests/req_1");

    let result = object(vec![("output", object(vec![("video", text("https://o.com/fox.mp4"))]))]);
    match s.step(reply(result, 40)).unwrap() {
        Action::Download { url, out } => {
            assert_eq!(url, "https://o.com/fox.mp4");
            assert_eq!(out, "out/fox.mp4");
        }
        other => panic!("unexpected {other:?}"),
    }
    match s.step(Event::Downloaded).unwrap() {
        Action::Print { value } => {
            assert_eq!(member(&value, "task_id").as_str(), Some("req_1"));
            assert_eq!(member(&value, "status").as_str(), Some("COMPLETED"));
            assert_eq!(member(&value, "output_url").as_str(), Some("https://o.com/fox.mp4"));
            assert_eq!(member(&value, "out").as_str(), Some("out/fox.mp4"));
        }
        other => panic!("unexpected {other:?}"),
    }
}

#[test]
fn generate_session_without_waiting_prints_the_answer() {
    let mut args = GenerateArgs::new("x".into());
    args.no_wait = true;
    args.model = Some(Model::Standard);
    let (mut s, a) = Session::generate(client(), args, false).unwrap();
    let submit = sent(a);
    assert_eq!(submit.url, "https://api.example.com/v2/seedance-2.0");
    let accepted = object(vec![
        ("request_id", text("req_2")),
        ("status_url", text("https://x/s")),
        ("response_url", text("https://x/r")),
        ("queue", Json::Int(3)),
    ]);
    match s.step(reply(accepted, 0)).unwrap() {
        Action::Print { value } => {
            assert_eq!(member(&value, "request_id").as_str(), Some("req_2"));
            assert!(matches!(member(&value, "queue"), Json::Int(3)));
        }
        other => panic!("unexpected {other:?}"),
    }
}

#[test]
fn generate_session_refuses_bad_requests_up_front() {
    let mut args = GenerateArgs::new("x".into());
    args.model = Some(Model::Mini);
    args.speed = Some(Speed::Fast);
    args.no_wait = true;
    assert!(matches!(Session::generate(client(), args, false), Err(CliError::ModelAndSpeed)));
    let args = GenerateArgs::new("x".into());
    assert!(matches!(Session::generate(client(), args, false), Err(CliError::MissingOut)));
}

#[test]
fn generate_session_reports_service_errors() {
    let mut args = GenerateArgs::new("x".into());
    args.no_wait = true;
    let (mut s, _) = Session::generate(client(), args, false).unwrap();
    let failed = Event::Replied { status: 401, body: "denied".into(), parsed: None, clock_nanos: 0 };
    match s.step(failed) {
        Err(CliError::Http { status, .. }) => assert_eq!(status, 401),
        other => panic!("unexpected {other:?}"),
    }
}

#[test]
fn upload_session_keeps_remote_references() {
    let (_, a) = Session::upload(
        client(),
        vec!["https://e.com/a.png".into()],
        vec!["data:video/mp4;base64,AAAA".into()],
        vec![],
    )
    .unwrap();
    match a {
        Action::Print { value } => {
            assert_eq!(strings(member(&value, "reference_images")), vec!["https://e.com/a.png".to_string()]);
            assert_eq!(
                strings(member(&value, "reference_videos")),
                vec!["data:video/mp4;base64,AAAA".to_string()]
            );
            assert!(strings(member(&value, "reference_audios")).is_empty());
        }
        other => panic!("unexpected {other:?}"),
    }
    let too_many: Vec<String> = (0..4).map(|i| format!("https://e.com/{i}.mp3")).collect();
    assert!(matches!(
        Session::upload(client(), vec![], vec![], too_many),
        Err(CliError::TooMany { got: 4, max: 3, .. })
    ));
}

#[test]
fn upload_session_refuses_unknown_media() {
    let (mut s, a) = Session::upload(client(), vec!["notes.txt".into()], vec![], vec![]).unwrap();
    assert!(matches!(a, Action::CheckFile { .. }));
    match s.step(Event::FileChecked) {
        Err(CliError::UnsupportedMediaExtension { path }) => assert_eq!(path, "notes.txt"),
        other => panic!("unexpected {other:?}"),
    }
}

#[test]
fn wait_session_times_out_and_fails() {
    let (mut s, a) = Session::wait(client(), "t9".into(), None, false, 1, 0, 100);
    assert_eq!(sent(a).url, "https://api.example.com/v2/requests/t9/status");
    match s.step(reply(object(vec![("status", text("QUEUED"))]), 1_000_000_100)) {
        Err(CliError::TaskTimedOut { task_id, max_wait_secs }) => {
            assert_eq!(task_id, "t9");
            assert_eq!(max_wait_secs, 1);
        }
        other => panic!("unexpected {other:?}"),
    }
    let (mut s, _) = Session::wait(client(), "t9".into(), None, false, 900, 0, 0);
    match s.step(reply(object(vec![("status", text("QUEUED"))]), 5)).unwrap() {
        Action::Sleep { secs } => assert_eq!(secs, 1),
        other => panic!("unexpected {other:?}"),
    }
    let _ = sent(s.step(Event::Slept).unwrap());
    let failed = object(vec![("status", text("FAILED")), ("error", text("nsfw"))]);
    match s.step(reply(failed, 10)) {
        Err(CliError::TaskFailed { detail }) => assert_eq!(detail.as_str(), Some("nsfw")),
        other => panic!("unexpected {other:?}"),
    }
}

#[test]
fn wait_session_without_out_prints_the_result() {
    let (mut s, _) = Session::wait(client(), "t".into(), None, false, 900, 2, 0);
    let _ = sent(s.step(reply(object(vec![("status", text("COMPLETED"))]), 1)).unwrap());
    match s.step(reply(object(vec![("output", text("https://o/v.mp4"))]), 2)).unwrap() {
        Action::Print { value } => assert_eq!(member(&value, "output").as_str(), Some("https://o/v.mp4")),
        other => panic!("unexpected {other:?}"),
    }
}

#[test]
fn wait_session_with_out_needs_an_output_url() {
    let (mut s, _) = Session::wait(client(), "t".into(), Some("v.mp4".into()), true, 900, 2, 0);
    let _ = sent(s.step(reply(object(vec![("status", text("COMPLETED"))]), 1)).unwrap());
    let result = object(vec![("output", text("https://o/picture.png"))]);
    assert!(matches!(s.step(reply(result, 2)), Err(CliError::MissingOutputUrl)));

    let (mut s, _) = Session::wait(client(), "t".into(), Some("v.mp4".into()), true, 900, 2, 0);
    let _ = sent(s.step(reply(object(vec![("status", text("COMPLETED"))]), 1)).unwrap());
    let result = object(vec![("output", Json::Array(vec![text("https://o/v.webm")]))]);
    assert!(matches!(s.step(reply(result, 2)).unwrap(), Action::Download { .. }));
    match s.step(Event::Downloaded).unwrap() {
        Action::Print { value } => assert!(matches!(member(&value, "output"), Json::Array(_))),
        other => panic!("unexpected {other:?}"),
    }
}

#[test]
fn terminal_status_is_read_through_an_error_code() {
    let (mut s, _) = Session::wait(client(), "t".into(), None, false, 900, 2, 0);
    let done = Event::Replied {
        status: 500,
        body: String::new(),
        parsed: Some(object(vec![("status", text("COMPLETED"))])),
        clock_nanos: 1,
    };
    assert_eq!(sent(s.step(done).unwrap()).url, "https://api.example.com/v2/requests/t");
}

#[test]
fn generate_session_submits_remote_references_at_once() {
    let mut args = GenerateArgs::new("x".into());
    args.no_wait = true;
    args.videos = vec!["https://e.com/v.mp4".into()];
    let (s, a) = Session::generate(client(), args, false).unwrap();
    assert!(s.task.is_none());
    let request = sent(a);
    assert_eq!(request.method, Method::Post);
    assert_eq!(request.url, "https://api.example.com/v2/seedance-2.0-mini");
    let body = request.body.expect("a body");
    assert_eq!(strings(member(&body, "reference_videos")), vec!["https://e.com/v.mp4".to_string()]);
    assert!(matches!(member(&body, "generate_audio"), Json::Bool(true)));
}

#[test]
fn upload_session_checks_lists_in_order() {
    let too_many_videos: Vec<String> = (0..4).map(|i| format!("https://e.com/{i}.mp4")).collect();
    match Session::upload(client(), vec!["https://e.com/a.png".into()], too_many_videos.clone(), vec![]) {
        Err(CliError::TooMany { name, got, max }) => {
            assert_eq!(name, "videos");
            assert_eq!(got, 4);
            assert_eq!(max, 3);
        }
        Err(other) => panic!("unexpected {other:?}"),
        Ok(_) => panic!("expected the video list to be refused"),
    }
    // A local image comes first: it is checked before the video list is.
    let (_, a) = Session::upload(client(), vec!["a.png".into()], too_many_videos, vec![]).unwrap();
    match a {
        Action::CheckFile { path } => assert_eq!(path, "a.png"),
        other => panic!("unexpected {other:?}"),
    }
}

#[test]
fn wait_session_downloads_under_its_task() {
    let (mut s, _) = Session::wait(client(), "t7".into(), Some("v.mp4".into()), false, 900, 2, 0);
    assert_eq!(s.task.as_deref(), Some("t7"));
    let _ = s.step(reply(object(vec![("status", text("COMPLETED"))]), 1)).unwrap();
    let result = object(vec![("output", text("https://e.com/out.mp4"))]);
    match s.step(reply(result, 2)).unwrap() {
        Action::Download { url, out } => {
            assert_eq!(url, "https://e.com/out.mp4");
            assert_eq!(out, "v.mp4");
        }
        other => panic!("unexpected {other:?}"),
    }
    match s.step(Event::Downloaded).unwrap() {
        Action::Print { value } => {
            assert!(matches!(member(&value, "task_id"), Json::Str(t) if t == "t7"));
            assert!(matches!(member(&value, "output_url"), Json::Str(u) if u == "https://e.com/out.mp4"));
        }
        other => panic!("unexpected {other:?}"),
    }
}
