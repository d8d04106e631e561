# desk_hud

The backend of Desk HUD, a small desktop overlay that shows chat and Codex
usage limits and the playing track.  The rules that decide what the widgets
show are a Verus-verified library; the commands that read files, call the
web APIs and drive the media session are ordinary Rust around it.

## Layout

- `src/` — the verified library
  - `text.rs`: characters, ASCII lower-casing, Unicode trimming, substring
    search, decimal rendering
  - `json.rs`: the JSON value model and member lookups
  - `plan.rs`, `chat.rs`: plan detection in account/subscription documents,
    the plan label, organization lookup, usage-window fields, the choice
    between the web API and the local message count
  - `codex.rs`: Codex plan names, credentials, request headers, window fields
  - `api.rs`: error-body compaction and the outcome of an API call
  - `time.rs`: countdown and wall-clock texts (chrono behind trusted wrappers)
  - `messages.rs`: counting today's user messages in local session logs
  - `media.rs`: transport commands, session matching, thumbnail data URLs
  - `laws.rs`: properties that span the functions above
- `tests/` — tests of the compiled library
- `app/` — the commands: settings file, HTTP requests, local files, media
  session, and the records with floating-point fields the frontend receives
