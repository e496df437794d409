# myvidcomp

Converts every video in a folder tree to a modern codec (AV1, HEVC or VVC)
with FFmpeg, keeps the original until the result has been checked, and sends
conversions that changed something recoverable, or scored below the quality
target, to a review queue instead of replacing the source.

## Layout

- `src/` is the library, verified with Verus: option parsing and its wire
  names, configuration files and the command line, the choice among the
  encoders FFmpeg advertises (given the outcome of each test encode), decoder
  selection, stream and chapter policy (with each step of the ISO BMFF box
  walk that finds chapter-carrier tracks), the plan ladder for each
  conversion, FFmpeg argument construction, output validation messages, the
  decisions of a run (which candidate comes next, when the count or a stop
  request ends it, what a dry run reports), review sidecars and their
  read-back, the JSON events an embedding front end receives, and the path
  naming rules. Each public function states its result in its `ensures`; the
  laws that relate several functions are public proof functions next to them
  (for example `roundtrip::sidecar_reads_back`, `cli::command_line_wins`,
  `plans::never_quietly_loses_anything`).
- `tests/` runs the library on concrete inputs.
- `app/` is the program around it: running FFmpeg and FFprobe, walking the
  file system (the BMFF walk reads box headers from the file there and hands
  each to the library), the terminal front end, the C ABI for embedding, and
  performing the run's actions; also the parts
  that compute in floating point (quality search, bitrate estimates, progress
  percentages, frame-rate and duration tolerances).
