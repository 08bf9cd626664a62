# sheil

The back-end logic of the Sheil SSH client, verified with Verus.

- `src/` — the verified library: host, snippet and credential records and
  their validation, credential sealing with AES-256-GCM, SSH key checks and
  host-key trust on first use, port-forwarding bookkeeping and the SOCKS5
  handshake as a state machine, SFTP listings and offset writes, ISO 8601
  rendering of timestamps, settings defaults, and the local-model helpers
  (model selections, download progress, GGUF listings, command cleanup).
- `tests/` — tests of the library on concrete values.
- `app/` — the I/O around it: SQLite through `sqlx`, SSH and SFTP through
  `russh`/`russh-sftp`, TCP listeners, the keychain, the Hugging Face Hub and
  `llama.cpp` generation.
