# ynab_agent

A JSON-first client for the YNAB API, for local automation and AI agents: a
command line (`ynab`) and a stdio MCP server (`ynab-mcp`) over one library.

The library under `src/` is written in Verus. Its functions carry `requires` /
`ensures` contracts over mathematical models (`Seq`, `Map`, `int`, and a view
of each data type), and Verus proves every function against its contract:

- `models`, `dates`, `text`, `json`, `named` — amounts in milliunits,
  timestamps, calendar dates, strings, a JSON document model whose objects keep
  one entry per key in key order, and a name-keyed map;
- `config`, `secrets` — profiles and the runtime's files, and what each
  credential operation asks of the keyring or the secrets file;
- `app`, `routes`, `web` — plan selection, name resolution, transaction
  filters and search, OAuth (PKCE, token responses, refresh decisions), API
  paths, URLs and error reading, and the reports commands print;
- `cli`, `inputs`, `mcp_types`, `scheduled` — request bodies built from
  command-line arguments and MCP tool parameters, exports that imports accept,
  output shaping and rendering (compact, indented and JSON Lines text), the
  OAuth callback, and skill installation plans (for Codex at user level, and
  for OpenClaw at user or project level);
- `setup` — the skill status and installation reports, the MCP client
  configuration, and the MCP doctor's findings;
- `error` — the error type and the envelope every failure is reported in;
- `laws` — properties that span operations, stated and proved as proof
  functions.

Calls into outside crates (`url`, `sha2`, `base64`, `rand`, `chrono`, `dirs`,
`serde_json`) stand behind small trusted wrappers whose contracts state what
the crates' documentation promises, or name results that take pages to state.

`app/` is ordinary Rust around the library: argument parsing with `clap`, HTTP
with `reqwest`, the keyring, files, the OAuth callback listener, and the MCP
server with `rmcp`. It hands the library plain values and carries out what
the library decides. `tests/` exercises the library on concrete values.
