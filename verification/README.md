# transcribe

A transcription service in two programs. The server takes audio files in, stores
them and queues a task for each; it also serves the results. The worker takes a
task from the queue, converts the audio with `ffmpeg`, runs `whisper-cli` on it
and keeps the transcript as a JSON document.

- `src/` is the verified library. It holds the decisions: names and paths of
  files, the limits, the messages, the answers, the schedule, and a state machine for each piece
  of work (saving, publishing, uploading, cleaning up, transcribing). A state of a
  machine is the step that is to be done next; a machine is told what came of it.
  What is proved of whole runs stands in the functions whose names begin with
  `law_`.
- `app/` carries the steps out: HTTP, files, the broker, the two programs. It is
  started as the server, or with the argument `worker` as the worker.
- `tests/` runs the library with the crates that it calls.
