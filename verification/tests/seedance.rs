use seedance_cli::args::{resolve_model, validate_generate, GenerateArgs};
use seedance_cli::body::generate_request_body;
use seedance_cli::json::Json;
use seedance_cli::media::{extract_output_url, first_uploaded_url};
use seedance_cli::model::{Model, Resolution, Speed};

fn text(s: &str) -> Json {
    Json::Str(s.to_string())
}

fn object(entries: Vec<(&str, Json)>) -> Json {
    Json::Object(entries.into_iter().map(|(k, v)| (k.to_string(), v)).collect())
}

fn base_args() -> GenerateArgs {
    let mut args = GenerateArgs::new("x".into());
    args.out = Some("x.mp4".into());
    args.poll_interval_secs = 1;
    args.max_wait_secs = 1;
    args
}

#[test]
fn model_to_slug() {
    assert_eq!(Model::Mini.slug(), "seedance-2.0-mini");
    assert_eq!(Model::Fast.slug(), "seedance-2.0-fast");
    assert_eq!(Model::Standard.slug(), "seedance-2.0");
}

#[test]
fn default_model_is_mini() {
    let args = base_args();
    assert_eq!(resolve_model(&args).unwrap(), Model::Mini);
}

#[test]
fn speed_alias_resolves_to_model() {
    let mut args = base_args();
    args.speed = Some(Speed::Fast);
    assert_eq!(resolve_model(&args).unwrap(), Model::Fast);
}

#[test]
fn mini_rejects_1080p() {
    let mut args = base_args();
    args.resolution = Resolution::R1080p;
    assert!(validate_generate(&args, Model::Mini).is_err());
}

#[test]
fn standard_accepts_4k() {
    let mut args = base_args();
    args.model = Some(Model::Standard);
    args.resolution = Resolution::R4k;
    assert!(validate_generate(&args, Model::Standard).is_ok());
}

#[test]
fn rejects_unsupported_duration() {
    let mut args = base_args();
    args.duration_seconds = 7;
    assert!(validate_generate(&args, Model::Mini).is_err());
}

#[test]
fn first_frame_rejects_reference_images() {
    let mut args = base_args();
    args.first_frame = Some("https://example.com/start.png".into());
    args.images = vec!["https://example.com/ref.png".into()];
    assert!(validate_generate(&args, Model::Mini).is_err());
}

#[test]
fn last_frame_requires_first_frame() {
    let mut args = base_args();
    args.last_frame = Some("https://example.com/end.png".into());
    assert!(validate_generate(&args, Model::Mini).is_err());
}

/// `seedance generate --prompt x --no-wait`. The command line itself is parsed in app/,
/// which tests cannot reach; this checks the library's side: a request with every setting
/// at the command line's default (`GenerateArgs::new`) has audio on, and its job asks for
/// audio.
#[test]
fn cli_defaults_to_audio_on() {
    let mut args = GenerateArgs::new("x".into());
    args.no_wait = true;
    assert!(args.generate_audio);
    assert!(!args.no_generate_audio);
    assert!(args.audio_enabled());
    match generate_request_body(&args, vec![], vec![], vec![], None, None) {
        Json::Object(m) => {
            assert_eq!(m[7].0, "generate_audio");
            assert!(matches!(m[7].1, Json::Bool(true)));
        }
        _ => panic!("expected an object"),
    }
}

/// `seedance generate --prompt x --no-generate-audio --no-wait`. The command line itself is
/// parsed in app/; this checks the library's side: a request with `no_generate_audio` set
/// passes validation, and the job it submits asks for no audio.
#[test]
fn cli_accepts_audio_off() {
    let mut args = GenerateArgs::new("x".into());
    args.no_generate_audio = true;
    args.no_wait = true;
    assert!(args.no_generate_audio);
    assert!(validate_generate(&args, Model::Mini).is_ok());
    assert!(!args.audio_enabled());
    let body = generate_request_body(&args, vec![], vec![], vec![], None, None);
    match body {
        Json::Object(m) => {
            assert_eq!(m[7].0, "generate_audio");
            assert!(matches!(m[7].1, Json::Bool(false)));
        }
        _ => panic!("expected an object"),
    }
}

#[test]
fn extracts_nested_media_url() {
    let result = object(vec![
        ("status", text("COMPLETED")),
        (
            "output",
            object(vec![(
                "videos",
                Json::Array(vec![object(vec![("url", text("https://example.com/out.mp4?x=1"))])]),
            )]),
        ),
    ]);
    assert_eq!(
        extract_output_url(&result).as_deref(),
        Some("https://example.com/out.mp4?x=1")
    );
}

#[test]
fn parses_upload_response() {
    let response = object(vec![(
        "file_urls",
        Json::Array(vec![text("https://images.segmind.com/assets/a.png")]),
    )]);
    assert_eq!(
        first_uploaded_url(&response).as_deref(),
        Some("https://images.segmind.com/assets/a.png")
    );
}
