# radiofm

Internet radio and FM in the terminal, with its core verified in Verus.

- `src/` is the verified library:
  - `source/caching.rs`: `CachingReader`, which keeps every byte read from a
    forward-only stream so a decoder can seek in it; laws on seeking inside
    the cache and on re-reading.
  - `app.rs`: the player screen as a state machine (keys in, state and a
    `Command` out), with laws on selection, the FM band and editing.
  - `config.rs`: stations, their labels and the built-in defaults.
  - `mhz.rs`: kHz shown as MHz with one decimal, specified by the binary32
    rounding rules the display has always used.
  - `source/mod.rs`, `source/fm.rs`, `ui.rs`, `text.rs`: player state, the FM
    band, which station is playing, and character-level string operations.
- `app/` is the program around it: terminal (crossterm, ratatui), audio
  (rodio), HTTP streams (reqwest), the FM signal chain (floating point), and
  the TOML configuration file.
- `tests/` exercises the library, including the MHz text against the
  standard library's float formatting.
