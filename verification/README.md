# ytcs — YouTube chapter splitter, verified

`ytcs` downloads the audio of a YouTube video and splits it into one track
per chapter (MP3, Opus or M4A at the configured bitrate, named by the
configured template): the video's own chapters, else timestamps found in its
description, else the silences of the audio. Cuts can be snapped to nearby
silences, tracks are tagged and get the cover art.

## Layout

- `src/` — the library, verified with Verus. Every function carries a
  contract over mathematical models (`Seq`, `nat`, views of the types):
  - `text`, `pattern`, `utils`: text handling, a backtracking matcher with
    leftmost-first semantics, folder and file names;
  - `chapters`, `chapters_from_description`, `chapter_refinement`, `audio`:
    timestamps, chapters read from JSON, descriptions and silences, and the
    refinement of cuts (one shared boundary per cut, outer edges fixed);
  - `config`, `config_wizard`: the settings, the wizard's answers and the
    summary;
  - `downloader`, `playlist`, `pipeline`, `commands`, `cookie_helper`:
    video IDs, thumbnails, playlists, the plan of a run and the argument
    lists of yt-dlp, ffmpeg and ffprobe;
  - `ytdlp_error_parser`, `yt_dlp_progress`, `yt_dlp_update`,
    `ytdlp_helper`: what yt-dlp's output means, and when to update it;
  - `ui`, `tui`: the lines shown on the command line, and the state
    machines of the interactive screens.
- `tests/` — tests of the library.
- `app/` — the `ytcs` program: command line, configuration file, running
  the external tools, HTTP and tagging.

Laws of the library are public proof functions named `lemma_*`, among them
the round trips of timestamps and settings (also onto another
configuration), the number of parts of a timestamp, the order of chapters
read from a description, the fixed outer edges of refinement, the
idempotence of canonical video URLs, a text area's Enter undone by
Backspace and its text read back as set, and a spinner's frame after any
number of ticks.
