# rataplay

A terminal player for online video: search with `yt-dlp`, watch or listen
with `mpv` (in a window or inside the terminal), and download in the
background.

The crate has two parts.

- `src/` is the library, verified with Verus. It holds the state machine of
  the application (`App`): what every key, click, worker report and player
  event does, and which work (the `Effect`s) the program is to carry out. It
  also holds the text the program reads and writes: the `yt-dlp` and `mpv`
  arguments, the lines `yt-dlp` prints (search entries, details, formats,
  download progress, update checks), the configuration file, paths, sizes,
  durations and dates. Each public function states its result in its
  contract; `laws.rs`, `menu_laws.rs` and the laws beside their functions state what holds
  across operations.
- `app/` is the program around it: the terminal, the drawing, the processes,
  the sockets, the files and the network. It turns what happens into calls of
  the library and carries out the effects it gets back.

Reading JSON goes through `serde_json` behind small trusted functions in
`src/json.rs`, whose contracts name what the parser returns.
