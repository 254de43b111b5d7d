# arcane_bridge

The logic of the Arcane Bridge tray app and its localhost hub, written in
Verus and proved against its contracts.

- `src/` — the verified library: the hub's JSON envelopes and message
  handling (`json`, `handlers`, `protocol`), its connection registry and
  pending requests (`registry`, `pending`), the state Monitor, Caster and
  Guilds publish (`hub_state`), the status shown in the tray and the Bridge
  Console (`status`, `activity`, `console`, `tray`), Zone Mode bookkeeping
  (`zones`), text helpers (`text`), and the properties that span operations
  (`laws`).
- `tests/` — tests of the library on concrete inputs.
- `app/` — the tray program around the library: the TCP server, the Tauri
  tray and console window, settings from the environment, and updates.
