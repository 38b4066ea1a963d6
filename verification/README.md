# ram_core

Verified core of a Roblox account manager, written in Verus.

`src/` is the library. Every function in it carries a contract that Verus
proves; the calls it makes into `chrono`, `regex` and `uuid`, and a few std
string functions, sit behind small trusted wrappers whose contracts say what
those crates document.

- `models`: accounts, presences, moderation state, groups, presets and the
  stores that hold them.
- `api`: the decisions taken around the Roblox web API: request URLs, pairing
  thumbnails and presences with the IDs asked for, share-link checks,
  moderation expiry, feed and search results.
- `transfer`: the portable export format and its round trip.
- `components`: the rules behind the UI panels: favorite-first game lists,
  server ordering and featured servers, statistics, group editing and
  distribution, the main panel's input buffers and requests.
- `i18n`: the Brazilian Portuguese dictionary.
- `text`, `clock`, `ids`: character-level helpers, instants and identifiers.

`app/` is ordinary Rust around the library: HTTP calls with `reqwest`, JSON
with `serde`, files on disk, and the egui panels. `tests/` runs the library
on concrete values.
