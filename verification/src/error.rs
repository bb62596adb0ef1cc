use vstd::prelude::*;

use crate::json::Json;
use crate::model::{Model, Resolution};

verus! {

/// Why a command was refused or failed.
#[derive(Debug)]
pub enum CliError {
    /// Both `--model` and the deprecated `--speed` were given.
    ModelAndSpeed,
    /// The model cannot render at the requested resolution.
    UnsupportedResolution { model: Model, resolution: Resolution },
    /// The duration is not one the service offers.
    UnsupportedDuration,
    /// A first frame was combined with reference images.
    FirstFrameWithImages,
    /// A last frame was given without a first frame.
    LastFrameWithoutFirstFrame,
    /// More references of one kind than the service takes.
    TooMany { name: String, got: usize, max: usize },
    /// The video has nowhere to go: no `--out` and no `--no-wait`.
    MissingOut,
    /// The API key is neither in the environment nor in the secrets file.
    MissingSecret { name: String },
    /// A local file whose extension names no supported media type.
    UnsupportedMediaExtension { path: String },
    /// The service answered with an HTTP status outside 200..=299.
    Http { status: u16, body: Json },
    /// The task ended in the FAILED state; `detail` is its error, or the whole status.
    TaskFailed { detail: Json },
    /// The task was still running when the time allowed ran out.
    TaskTimedOut { task_id: String, max_wait_secs: u64 },
    /// The storage service's answer held no file URL for an uploaded path.
    MissingUploadUrl { path: String },
    /// A finished task's result held no downloadable output URL.
    MissingOutputUrl,
    /// The submit answer lacked `request_id`, `status_url` or `response_url` as strings.
    BadSubmitResponse,
}

} // verus!
