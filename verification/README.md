# seedance-cli

A command-line client for Seedance 2.0 video generation on Segmind: it uploads local
reference files, submits a generation job, polls it until it finishes and downloads the
video.

The decisions of the tool live in `src/` and are proved with Verus:

- `args`, `model`: the generate options, their defaults and their validation.
- `json`: a small JSON value type with ordered members.
- `media`: finding the downloadable video URL in a result, and the uploaded file URL in an
  upload answer.
- `api`: the endpoints, the requests sent to them, and how answers are decoded.
- `upload`: media types by extension and data URLs for local files.
- `poll`: one step of waiting on a task.
- `secret`: which API key value is used.
- `body`: the request body and the summaries the tool prints.
- `pricing`: the bundled price notes.
- `flow`: a session, stepped by events, that runs a whole generate, upload or wait command
  and says which action comes next.

`app/` holds the program around it: argument parsing, HTTP, files, sleeping and printing.
It runs a `flow::Session` by performing each action and handing back what came of it.
