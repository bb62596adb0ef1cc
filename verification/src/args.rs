use vstd::prelude::*;

use crate::error::CliError;
use crate::model::{supports, Model, Resolution, Speed};

verus! {

/// Duration, in seconds, asked for when none is given.
pub const DEFAULT_DURATION_SECONDS: u32 = 5;

/// Seed asked for when none is given: the service picks one.
pub const DEFAULT_SEED: i64 = -1;

/// Polling interval, in seconds, when none is given.
pub const DEFAULT_POLL_INTERVAL_SECS: u64 = 2;

/// Longest wait for a task, in seconds, when none is given.
pub const DEFAULT_MAX_WAIT_SECS: u64 = 900;

/// Most reference images the service takes.
pub const MAX_IMAGES: usize = 9;

/// Most reference videos the service takes.
pub const MAX_VIDEOS: usize = 3;

/// Most reference audio clips the service takes.
pub const MAX_AUDIOS: usize = 3;

/// What `seedance generate` was asked to do.
#[derive(Debug)]
pub struct GenerateArgs {
    pub prompt: String,
    pub model: Option<Model>,
    pub speed: Option<Speed>,
    pub resolution: Resolution,
    pub duration_seconds: u32,
    pub aspect_ratio: String,
    pub images: Vec<String>,
    pub videos: Vec<String>,
    pub audios: Vec<String>,
    pub first_frame: Option<String>,
    pub last_frame: Option<String>,
    pub generate_audio: bool,
    pub no_generate_audio: bool,
    pub seed: i64,
    pub return_last_frame: bool,
    pub skip_moderation: bool,
    pub out: Option<String>,
    pub poll_interval_secs: u64,
    pub max_wait_secs: u64,
    pub no_wait: bool,
}

/// The durations, in seconds, that the service offers.
pub open spec fn allowed_duration(d: u32) -> bool {
    d == 4 || d == 5 || d == 6 || d == 8 || d == 10 || d == 12 || d == 15
}

/// The model a request resolves to, or `None` when `--model` and `--speed` were both given.
pub open spec fn resolved_model(model: Option<Model>, speed: Option<Speed>) -> Option<Model> {
    match (model, speed) {
        (Some(_), Some(_)) => None,
        (Some(m), None) => Some(m),
        (None, Some(Speed::Fast)) => Some(Model::Fast),
        (None, Some(Speed::Standard)) => Some(Model::Standard),
        (None, None) => Some(Model::Mini),
    }
}

/// `e` reports that a list named `name` held `got` entries where `max` are allowed.
pub open spec fn reports_too_many(e: CliError, name: Seq<char>, got: nat, max: nat) -> bool {
    e matches CliError::TooMany { name: n, got: g, max: x } && n@ == name && g == got && x == max
}

/// A generate request passes every check.
pub open spec fn generate_valid(args: GenerateArgs, model: Model) -> bool {
    &&& supports(model, args.resolution)
    &&& allowed_duration(args.duration_seconds)
    &&& !(args.first_frame is Some && args.images@.len() > 0)
    &&& !(args.last_frame is Some && args.first_frame is None)
    &&& args.images@.len() <= MAX_IMAGES
    &&& args.videos@.len() <= MAX_VIDEOS
    &&& args.audios@.len() <= MAX_AUDIOS
    &&& !(!args.no_wait && args.out is None)
}

/// `e` is the error of the first check, in order, that a generate request fails.
pub open spec fn first_generate_error(args: GenerateArgs, model: Model, e: CliError) -> bool {
    if !supports(model, args.resolution) {
        e == CliError::UnsupportedResolution { model, resolution: args.resolution }
    } else if !allowed_duration(args.duration_seconds) {
        e is UnsupportedDuration
    } else if args.first_frame is Some && args.images@.len() > 0 {
        e is FirstFrameWithImages
    } else if args.last_frame is Some && args.first_frame is None {
        e is LastFrameWithoutFirstFrame
    } else if args.images@.len() > MAX_IMAGES {
        reports_too_many(e, "images"@, args.images@.len(), MAX_IMAGES as nat)
    } else if args.videos@.len() > MAX_VIDEOS {
        reports_too_many(e, "videos"@, args.videos@.len(), MAX_VIDEOS as nat)
    } else if args.audios@.len() > MAX_AUDIOS {
        reports_too_many(e, "audios"@, args.audios@.len(), MAX_AUDIOS as nat)
    } else {
        e is MissingOut
    }
}

impl GenerateArgs {
    /// A request for `prompt` with every other setting at the command line's default.
    pub fn new(prompt: String) -> (r: GenerateArgs)
        ensures
            r.prompt == prompt,
            r.model is None,
            r.speed is None,
            r.resolution == Resolution::R720p,
            r.duration_seconds == DEFAULT_DURATION_SECONDS,
            r.aspect_ratio@ == "16:9"@,
            r.images@.len() == 0,
            r.videos@.len() == 0,
            r.audios@.len() == 0,
            r.first_frame is None,
            r.last_frame is None,
            r.generate_audio,
            !r.no_generate_audio,
            r.seed == DEFAULT_SEED,
            !r.return_last_frame,
            !r.skip_moderation,
            r.out is None,
            r.poll_interval_secs == DEFAULT_POLL_INTERVAL_SECS,
            r.max_wait_secs == DEFAULT_MAX_WAIT_SECS,
            !r.no_wait,
    {
        GenerateArgs {
            prompt,
            model: None,
            speed: None,
            resolution: Resolution::R720p,
            duration_seconds: DEFAULT_DURATION_SECONDS,
            aspect_ratio: "16:9".to_owned(),
            images: Vec::new(),
            videos: Vec::new(),
            audios: Vec::new(),
            first_frame: None,
            last_frame: None,
            generate_audio: true,
            no_generate_audio: false,
            seed: DEFAULT_SEED,
            return_last_frame: false,
            skip_moderation: false,
            out: None,
            poll_interval_secs: DEFAULT_POLL_INTERVAL_SECS,
            max_wait_secs: DEFAULT_MAX_WAIT_SECS,
            no_wait: false,
        }
    }

    /// Whether the service is asked to generate audio: on unless `--no-generate-audio`.
    pub fn audio_enabled(&self) -> (r: bool)
        ensures
            r == (self.generate_audio && !self.no_generate_audio),
    {
        self.generate_audio && !self.no_generate_audio
    }
}

/// The model a request names: `--model`, else the one `--speed` stands for, else Mini.
pub fn resolve_model(args: &GenerateArgs) -> (r: Result<Model, CliError>)
    ensures
        r matches Ok(m) ==> resolved_model(args.model, args.speed) == Some(m),
        r is Err <==> resolved_model(args.model, args.speed) is None,
        r matches Err(e) ==> e is ModelAndSpeed,
        args.model == Some(Model::Mini) && args.speed is None ==> r == Ok::<Model, CliError>(
            Model::Mini,
        ),
        args.model == Some(Model::Fast) && args.speed is None ==> r == Ok::<Model, CliError>(
            Model::Fast,
        ),
        args.model == Some(Model::Standard) && args.speed is None ==> r == Ok::<Model, CliError>(
            Model::Standard,
        ),
        args.model is None && args.speed is None ==> r == Ok::<Model, CliError>(Model::Mini),
        args.model is None && args.speed == Some(Speed::Fast) ==> r == Ok::<Model, CliError>(
            Model::Fast,
        ),
        args.model is None && args.speed == Some(Speed::Standard) ==> r == Ok::<Model, CliError>(
            Model::Standard,
        ),
        args.model is Some && args.speed is Some ==> r is Err,
{
    match (args.model, args.speed) {
        (Some(_), Some(_)) => Err(CliError::ModelAndSpeed),
        (Some(model), None) => Ok(model),
        (None, Some(Speed::Fast)) => Ok(Model::Fast),
        (None, Some(Speed::Standard)) => Ok(Model::Standard),
        (None, None) => Ok(Model::Mini),
    }
}

/// Refuses a list longer than `max`, naming it `name`.
pub fn validate_count(values: &[String], max: usize, name: &str) -> (r: Result<(), CliError>)
    ensures
        r is Ok <==> values@.len() <= max,
        r matches Err(e) ==> reports_too_many(e, name@, values@.len(), max as nat),
{
    if values.len() > max {
        return Err(CliError::TooMany { name: name.to_owned(), got: values.len(), max });
    }
    Ok(())
}

/// Checks a generate request for `model` before anything is uploaded or sent.
pub fn validate_generate(args: &GenerateArgs, model: Model) -> (r: Result<(), CliError>)
    ensures
        r is Ok <==> generate_valid(*args, model),
        r matches Err(e) ==> first_generate_error(*args, model, e),
{
    if !model.supports(args.resolution) {
        return Err(CliError::UnsupportedResolution { model, resolution: args.resolution });
    }
    if !(args.duration_seconds == 4 || args.duration_seconds == 5 || args.duration_seconds == 6
        || args.duration_seconds == 8 || args.duration_seconds == 10 || args.duration_seconds
        == 12 || args.duration_seconds == 15) {
        return Err(CliError::UnsupportedDuration);
    }
    if args.first_frame.is_some() && args.images.len() > 0 {
        return Err(CliError::FirstFrameWithImages);
    }
    if args.last_frame.is_some() && args.first_frame.is_none() {
        return Err(CliError::LastFrameWithoutFirstFrame);
    }
    validate_count(args.images.as_slice(), MAX_IMAGES, "images")?;
    validate_count(args.videos.as_slice(), MAX_VIDEOS, "videos")?;
    validate_count(args.audios.as_slice(), MAX_AUDIOS, "audios")?;
    if !args.no_wait && args.out.is_none() {
        return Err(CliError::MissingOut);
    }
    Ok(())
}

/// Law: `--model m` alone names `m` itself; `--speed fast` or `--speed standard` alone
/// names that model; with neither the model is Mini; both together are refused.
pub proof fn lemma_model_choice(m: Model, speed: Speed)
    ensures
        resolved_model(Some(m), None) == Some(m),
        resolved_model(None, None) == Some(Model::Mini),
        resolved_model(None, Some(Speed::Fast)) == Some(Model::Fast),
        resolved_model(None, Some(Speed::Standard)) == Some(Model::Standard),
        resolved_model(Some(m), Some(speed)) is None,
{
}

} // verus!
