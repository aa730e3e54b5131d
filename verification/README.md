# stream_recorder

A recorder for live streams: it polls the platforms described by JSON platform
files, records live streams with ffmpeg, post-processes the recordings (joining
continuation segments, thumbnails, retention, uploads) and reports to Discord.

## Layout

- `src/` is the library, written in Verus. Every function there carries a
  contract and is proved: the configuration (keys, parsing, validation, listing
  and the settings reference), durations and file sizes, monitor references and
  tokens, platform pipelines (URL templates, variables, live checks, title
  rules), ffmpeg argument building and encoder selection, the post-processing
  plans (concat manifests, thumbnail grids, retention), the uploaders' request
  and response handling, Discord message building and the template helpers.
  Calls into regex, semver, reqwest's header checks and `std::path` stand
  behind small trusted wrappers whose contracts are stated in their doc comments.
- `tests/` runs the library on concrete values.
- `app/` is the program around it: command-line parsing, files, the keyring,
  HTTP, ffmpeg processes, the async monitor loop, handlebars rendering and
  terminal tables.
