# media_convertor

A secure shell over the system `ffmpeg`/`ffprobe` binaries, written in Verus: the
library's decisions are proved against their contracts, and a thin command-line program
performs the I/O around them.

## Layout

- `src/` — the verified library.
  - `codec`, `container`, `format`, `preset`: the data model (codecs, containers, output
    formats, built-in presets), with laws on the preset table.
  - `security`: filename sanitization, lexical path confinement and its symlink half,
    the protocol denylist, the raw-argument allowlist, and the bearer-token comparison
    (its contract is equality; it is constant-time for equal lengths by construction: it
    folds every byte into one difference, with no early exit, which no contract states).
  - `config`: configuration defaults, the server's bind policy, and the environment a
    server is started with (and reads back).
  - `ffmpeg/`: argument-vector builders (`command`), parsing of the tools' listings into a
    capability set (`capabilities`), the version banner (`locate`), and the decisions
    taken while a job runs: progress blocks, kill reasons, exit outcomes (`run`).
  - `api_queue`: the universal request object, job records, and the job store's state
    machine, including recovery after a restart.
  - `operation`, `dispatch`: routing a request to an operation, and planning what the
    engine runs for it (outputs confined to the output directory, inputs local, raw
    passthrough gated and checked).
  - `detect`, `filter`, `stream`, `transcode`, `audio`, `video`, `progress`, `plugin`:
    probe results, filter chains, job builders, progress events, the plugin's options.
  - `cli`, `server`, `mcp`: the decisions of the command-line front end, of the HTTP
    API and of the MCP stdio server (manifest parsing, start configuration, remote
    polling; token check, upload storage, result responses, cleanup; method and tool
    routing, defaults, reports).
  - `json`: JSON values as the library reads them (serde_json parses; a value is read as
    the list of its nodes, looked up by path), and decimal and rational number texts in
    millionths.
  - `probe`: ffprobe's JSON report read into the media information.
  - `mcp_request`: a JSON-RPC line read into its method, and a tool call read into the
    request it asks of the handler (operation, body, input files, output path).
  - `text`, `path`: character-level helpers and Unix path semantics shared by the above.
- `tests/`: tests of the library, run against the compiled crate.
- `app/`: one executable that runs as four programs, chosen by the name it is started
  under (install it, or links to it, under each name):
  - `media-convertor`: the command-line program (`main.rs`, `server_control.rs`,
    `client.rs`);
  - `media-convertor-server`: the HTTP API (`server.rs`): axum routes, worker threads
    that take queued jobs from the library's `JobStore`, and the jobs persisted as JSON
    and recovered on start;
  - `media-convertor-mcp`: the MCP server on stdin/stdout (`mcp.rs`);
  - `media-convertor-plugin`: the TTS hub converter plugin (`plugin.rs`).

  Around them: process spawning and ffprobe's JSON (`engine.rs`), and the serde copies
  of library types (`dto.rs`).

Times, frame rates and loudness targets are held as integers in millionths (of a second,
frame per second, or unit); percentages in millionths of a percent.
