# agents-relay

Session memory for AI coding tools. Agents ask a proxy over standard input; the proxy settles how
far a search may reach and passes it on to one backend, which alone writes to the database.

* `src/` is the library, verified with Verus: who may see what (`scope`, `mcp`), what the
  database is asked and what is answered (`server`), how a backend is found and started and when
  it stops (`client`, `server`), what Antigravity leaves behind (`ingest_antigravity`), the digest
  for new sessions (`session_hook`), the settings (`config`, `workspace`) and what the commands
  decide (`commands`). `json`, `clock`, `paths` and `config` call `serde_json`, `chrono`, `dirs` and
  `shellexpand`; the doc comment of each function that is believed rather than proved says what is
  believed.
* `app/` is the program around it: the command line, files, HTTP and SQLite.
* `tests/` runs the library.

Two agents are known to the relay: Antigravity, and the coding agent whose source `--agent` or
`AGENTS_RELAY_AGENT` names. Its client is called the same with `-code` behind it.
