# vpnht

The logic of the VPN.ht desktop client's kill switch and API session,
verified with Verus.

- `src/text.rs` — string operations (lines, words, trimming, search,
  replacement, joining) specified over the characters of a string.
- `src/command.rs` — commands to run and their results; elevation through
  `pkexec` or `osascript`. Each word of the elevated command is quoted so
  that a POSIX shell reads it back exactly; the AppleScript text around the
  words is not covered by that proof.
- `src/firewall.rs` — the kill switch's firewall steps, the command of
  each, and how their output is read; interface name checking.
- `src/killswitch.rs` — the kill switch as a state machine: each operation
  is a job that asks for commands one at a time and takes their results.
- `src/killswitch_laws.rs` — what holds of every run of an operation.
- `src/api.rs`, `src/api_laws.rs` — GraphQL requests, how replies are
  judged, and the signed-in session.
- `app/` — the I/O around the library: HTTP with reqwest, JSON with serde,
  and the processes that change the firewall.
