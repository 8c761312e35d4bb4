# aegispanel-core

The decision logic of the AegisPanel wall-panel daemon, verified with Verus.

- `src/state_machine.rs` – the panel state machine (`step`) and its laws: the
  screen always matches the alarm, armed reports override sleep, face matches
  unlock.
- `src/panel.rs` – the daemon's reactions to timer, radar, face ID and Home
  Assistant inputs (display power, state, face ID launch, disarm requests).
- `src/ha_client.rs` – the Home Assistant WebSocket protocol: handshake,
  subscription, heartbeat, disarm calls, event parsing, reconnect backoff.
- `src/ota.rs` – Ed25519 and SHA-256 checks of update payloads, A/B slot
  choice, release selection. An `InstallPlan`, which names the slot and device
  to write, is made only by `OtaManager::plan_install` for a payload whose
  signature and digest both passed; the flash arguments and a successful
  update reply both require one. A release publishes beside each image its
  detached signature (`<image>.sig`, 64 raw bytes) and its digest
  (`<image>.sha256`, as `sha256sum` writes it).
- `src/power_manager.rs` – night window and backlight switching.
- `src/config.rs`, `src/ipc_server.rs`, `src/face_id.rs`, `src/gpio_manager.rs`,
  `src/recovery.rs` – configuration, the local IPC protocol, face ID decisions,
  GPIO signals and the recovery web server's responses.
- `src/text.rs` – string helpers with character-level specifications.

`app/` holds the I/O around the library: files, sockets, WebSocket and HTTP
clients, GPIO access, commands, and the serde forms of the library's types.
