# ani_dock

The core of a downloader for the anime site ani.gamer.com.tw, written in
Verus, which verifies every function of `src/` against its contract. The
contracts state what each function returns, except for the device id slot
(`DeviceId::get_cloned`, `set`, `default`): its value is shared by every clone
through a lock, and nothing is stated of it.

## Layout

- `src/text.rs`, `src/util.rs`, `src/pattern.rs` — text rules (decimal
  notation, trimming, path-safe names, the referer, URL resolution through
  `url`, title patterns through `regex`).
- `src/dom.rs` — what `domparser` reads from a page, named.
- `src/index_map.rs` — a model of `indexmap`'s insertion order.
- `src/config.rs`, `src/sn_list.rs`, `src/device_id.rs` — configuration,
  followed serial numbers and the shared device id.
- `src/anime_episode.rs` — an episode page: title, episode marker, name,
  episode list.
- `src/anime/` — anime and episodes, episode titles (`episode_detail`),
  HLS playlists (`playlist`), and the download as a state machine
  (`download`), with its laws.
- `src/request/` — the site's JSON answers and what an HTTP client is made of
  (`client`).
- `src/ffmpeg.rs` — ffmpeg's arguments and what its exit means.
- `app/` — plain Rust around the library: files, HTTP requests, running
  ffmpeg, and the serde forms of the library's types.
- `tests/` — tests of the library.
