# dubstrip

Origin-aware audio dub stripping for movie files: decide which audio tracks
of a film are its native theatrical language, keep those, and remux the
others away losslessly.

- `src/` is the library, verified with Verus: track decisions (`decide`),
  origin resolution and language tags (`ai`, `omdb`, `wikipedia`, `gemini`),
  file names and paths (`paths`), safety gates (`safety`), remux plans and
  byte sizes (`remux`), alert cards (`notify`), settings (`config`), and the
  string utilities they rest on (`text`). Regular expressions (`pattern`) and
  JSON documents (`json`) are read through the `regex` and `serde_json` crates.
- `app/` is the command-line program: argument parsing, running `ffprobe`,
  `ffmpeg`, `fuser` and the notifier, HTTP requests, the terminal and the file
  system. It follows the steps the library decides.
- `tests/` exercises the library on concrete inputs.
