# twitch_opendeck

The logic of an OpenDeck plugin that controls Twitch chat and stream features
(chat messages, chat modes, Shield Mode, ads, viewer count) through the Helix
API, with OAuth2 device code login. The library is written in Verus: each
function carries a contract, and the properties that span several functions are
stated and proved in `src/laws.rs`.

- `src/settings.rs` — global and per-action settings, login state, title cache.
- `src/auth.rs` — device code flow (forms, poll decisions), token storage,
  refresh planning.
- `src/auth_handler.rs` — property inspector messages, button labels and
  titles, the authentication status check.
- `src/twitch_api.rs` — API addresses, headers, answer handling, errors.
- `src/actions.rs` — the actions and the key press state machine.
- `src/viewers.rs` — the viewer count label.
- `src/json.rs`, `src/clock.rs` — the calls into `serde_json` and `chrono`.
- `app/` — the plugin itself: HTTP, the OpenDeck connection, serde forms,
  in-memory state.
