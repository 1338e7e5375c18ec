# ffmpeg_tui

A terminal front end for FFmpeg: build a command from input and output files,
codecs, container, quality and filter chains, queue it as a job, watch its
progress, inspect media files with `ffprobe`, and browse the file system for
paths.

The logic is a Verus library under `src/`, every function of it verified
against its contract:

- `domain`: codecs, container formats, filters and filter chains, the FFmpeg
  command and its argument list, jobs and the life cycle of their status,
  media information.
- `app`: the application state, the reducer (`ActionHandler::handle`) that
  turns an action into a new state and the outside work it asks for
  (`Effect`), the queue dispatcher, the file browser, the filter dialog, the
  key bindings and what the screens show.
- `infra`: the FFmpeg and FFprobe executors: arguments, version checks, the
  reading of `ffprobe` JSON into media information, process errors.
- `parser`: reading FFmpeg's progress lines.
- `preset`: the built-in encoding presets.
- `text`, `paths`, `quantity`: text, path and fixed-point helpers.

The calls into `std::path`, `str::to_lowercase`, `String::push`/`pop`,
`uuid`, `chrono` and `shellwords` are trusted items; each says in its doc
comment what its contract claims.

`app/` is the terminal program around the library: the event loop (terminal
input, a ticker, and the messages of running jobs), the processes it starts,
the file system, the TOML preset files, and the ratatui drawing.

`tests/` holds the tests; the laws of the library are public proof functions
named `law_*`.
