# zero_day_chat

The core of a peer-to-peer chat client, verified with Verus.

- `src/` — the library. Accounts derived from BIP-39 seed phrases
  (`identity`), the saved state and its model (`storage`), the user's
  commands (`commands`), packets and the network task's decisions
  (`network`), text and identifier helpers (`text`, `encoding`), and
  properties of the whole (`laws`).
- `app/` — the desktop program around it: Tauri commands, the state file,
  and the libp2p network task, which performs what the library decides.
- `tests/` — tests of the library.
