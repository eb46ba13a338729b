# agent_browser (connect)

Verified core of `agent-browser connect`, which lets the `ab-connect` Chrome
extension drive the user's own browser over Chrome native messaging.

- `src/` — the library, verified with Verus:
  - `text.rs`: decimal/hex rendering, string equality, Unicode trimming, path joining;
  - `json.rs`: JSON string escaping and validity (through `serde_json`), JSON arrays;
  - `framing.rs`: the 4-byte little-endian length framing of native messages;
  - `connect.rs`: argument handling and the browsers' `NativeMessagingHosts` directories;
  - `install.rs`: launcher script, host manifest, where manifests are written;
  - `report.rs`: the command's JSON and text output;
  - `host.rs`: the host's log and relay-URL files, guid, CDP endpoint and its loop decisions;
  - `upgrade.rs`: the in-place upgrade command and messages.
- `app/` — file system, environment, processes and the async host loop (tokio,
  tokio-tungstenite), calling the library for every decision.
- `tests/` — tests of the library on concrete values.
