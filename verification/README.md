# streamgrab

The logic of StreamGrab, a desktop front end for the N_m3u8DL-RE and FFmpeg
download tools, as a library verified with Verus.

- `src/domain/config` — settings, their defaults, and the resolution of a
  task's configuration (task overrides, then template, then global settings).
- `src/domain/downloader` — the N_m3u8DL-RE command line built from a
  resolved configuration.
- `src/domain/download` — URL types and engine dispatch, stream lines and the
  stream listing, ffprobe streams, and progress sampling.
- `src/domain/task` — the task state machine, task overrides and records.
- `src/domain/media` — media metadata and resolutions.
- `src/commands` — the decisions of the front-end commands (save directory,
  tools, output file, status updates).
- `src/tools` — tool archives, releases and their cache, tool versions.
- `src/text.rs` — character-level string functions with their models.

`app/` is a small command-line program around the library: file system,
archives, processes, JSON, the GitHub release API and tool downloads, the
process-wide progress tracker and release cache. `tests/` holds the tests.
