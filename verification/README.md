# idle_render

Offline export of IdleScreen savers and the Director that queues export jobs,
with the decision logic written in Verus and proved against its contracts.

## Layout

- `src/` — the verified library.
  - `duration`, `paths`, `models`, `job_spec`, `cli`, `av1`: parsing and
    validating render requests (durations, formats, containers, path checks)
    and choosing the encode back end.
  - `encode`, `png_frame`, `audio`: encoder discovery over `ffmpeg -encoders`
    output, the ffmpeg argument lists, the raw-stream header, PNG frames and
    the audio mux plan.
  - `snapshot`, `pipeline_snapshot`: baseline paths, the compare/update
    decision and the byte or pixel comparison.
  - `studio`: the Director's queue (ids that are never reused), the render
    child's output cap and binary lookup, the new-job form, key handling as
    state transitions, run bookkeeping, the render worker's steps and the screen
    texts.
  - `text`: character-level helpers shared by the parsers and formatters.
- `tests/` — tests of the library on concrete values.
- `app/` — the `idle-studio` program: terminal drawing and the event loop,
  the queue file, the render child process, and the render pipeline's file and
  process edges. It performs the effects the library decides on.
