# omnihub_core

The core logic of the OmniHub desktop client, written in Verus: every
function in `src/` carries a contract, and Verus proves all of them but the
small wrappers (marked `external_body`) that call outside crates, whose
contracts restate what those crates document.

- `src/text.rs` — character-level string helpers and their specifications.
- `src/security.rs` — permission modes and the blacklist that screens shell
  commands run by the AI agent.
- `src/chat.rs`, `src/thinking.rs` — chat text: tool-record stripping,
  session titles, `<think>` blocks, code-block actions and the languages
  they apply to, and the conversation history sent to the model.
- `src/models.rs`, `src/sync_plan.rs`, `src/queue.rs`, `src/conflict.rs`,
  `src/service.rs` — cloud sync: records, the planner of a sync round, the
  retrying operation queue, conflicts and the three-way merge, and the sync
  service's key and queue state.
- `src/sync_run.rs`, `src/bundle.rs`, `src/blob_vault.rs` — the bookkeeping
  of one sync run (results, failed operations, pending cloud deletions),
  restoring the backup bundle of a blob vault, and the vault's files.
- `src/device_flow.rs`, `src/pkce_flow.rs` — GitHub's device sign-in and the
  authorization code flow with PKCE: request bodies and addresses, the
  callback port, and what each answer means.
- `src/gist_vault.rs`, `src/drive_api.rs`, `src/webdav.rs` — the GitHub gist,
  Google Drive, OneDrive and WebDAV vaults: request addresses and bodies,
  reply statuses, and the files read from listings.
- `src/certificate_notifier.rs`, `src/certificate_form.rs` — notices that
  certificate data changed, and the certificate the editor's inputs make.
- `src/crypto.rs`, `src/key_file.rs` — encryption of stored secrets, master
  key verification data, and the file the master key is kept in.
- `src/oauth.rs`, `src/session_auth.rs`, `src/client.rs`, `src/endpoints.rs`,
  `src/sync_server_api.rs`, `src/remote_guard.rs` — OAuth callbacks and
  PKCE, the sync server client's address and session, API errors and users, server and WebDAV
  addresses, the sync server's item addresses, request bodies and refused
  replies, and the guard on outgoing requests.
- `src/connection.rs` — open connections and reopening saved tabs.

`app/` holds what touches the machine (files, the process-wide master key,
the local callback server) and serde forms of records; it makes no decision
of its own. `tests/` exercises the library with the real outside crates.
