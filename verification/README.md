# quarkcli

`quark` is a command-line client for Quark Drive. This crate holds its
logic as a library verified with Verus, and the program around it.

## Layout

- `src/` — the verified library:
  - `text`, `paths`: string helpers and the `std::path` operations used.
  - `error`: the error type, its messages and its retry classification.
  - `remote_path`: normalising remote paths, resolving them against a
    current folder, splitting them into parent and name.
  - `shell`: the interactive shell's command language (words split with
    `shlex`) and the helpers for entries addressed by file id.
  - `navigate`: resolving paths into folders and entries one lookup at a
    time.
  - `options`: the option values (`--retry`, `--verify`, ...), command
    arguments, and where configuration and cookie files live.
  - `download`: retry policy and backoff, checksum verification (hex or
    base64 md5), the names of partial and resume files.
  - `resume`: what the download loop does after each failed attempt.
  - `plan`: the decisions of file and directory downloads and uploads, and
    their resume records.
  - `transfer`: transfer progress and its shared control object.
  - `output`: listings and result lines as they are printed.
  - `commands`: the decisions of the individual commands.
  - `hashing`: md5 and SHA-1 of files fed chunk by chunk.
- `tests/`: tests of the library.
- `app/`: the program: command-line parsing, files, terminal, progress
  bars, and the loops that carry out the library's decisions against the
  drive service.
