# Clipline

The core of the shell of Clipline, a replay recorder for games, written in
[Verus](https://github.com/verus-lang/verus): executable Rust whose behaviour is stated in
contracts and proved.

The library decides; it does not touch files, windows, the network or other processes. Longer
work that needs them goes on in steps: a value such as `SettingsTransaction`, `HotkeySync`,
`QuotaCheck`, `SidecarPreparation`, `ShareExport`, `CloudConnection` or the job of
`ffmpeg_install` says what is to be done next and takes the answer. A single call at a fixed place
is handed in as a closure, and the contract says where, with what, and when it may be called.
Numbers of double precision cross the border as their bit patterns.

## Layout

- `src/` — the library.
  - `ffmpeg_runtime`, `ffmpeg_install`, `archive`, `hash`: the managed FFmpeg, its manifest, its
    verification and its installation.
  - `runtime`, `detection`, `capture_policy`, `encoders`, `mic_test`: the recorder, the quota, the
    detected game and the microphone test.
  - `settings`, `transaction`, `shortcuts`, `hotkeys`, `media_folder`: settings, how they are saved
    as a whole or not at all, and the keys.
  - `window`, `webview2`, `desktop`, `startup`, `launch`, `diagnostics`, `image`: the main window,
    the tray, notices and the start.
  - `library`, `markers`, `sidecars`, `share_export`, `clip_export`, `export_names`,
    `preview_cache`, `gc`: clips and the files that are made from them.
  - `cloud`, `cloud_upload`, `cache_identity`, `osu_api`, `game_identity`: accounts, uploads and
    what belongs to whom.
  - `text`, `paths`: strings and paths.
- `tests/` — tests of the library from outside.
- `app/` — the program around it: files, downloads, FFmpeg processes and the log. What only the
  platform can do stands behind the trait `Platform`.

Public proof functions whose names begin with `law_` state what holds across several functions.
What is taken on trust of other crates is said above each function marked
`#[verifier::external_body]` and each `assume_specification`.
