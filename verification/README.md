# termpop

A popup text editor for the terminal on macOS: `termpop` opens a small
editor window and prints what was submitted; `termpop daemon` opens the same
editor on a global hotkey and pastes the result into the application that
was in front.

## Layout

- `src/` — the verified library (Verus):
  - `ipc` — the daemon's messages and their framing (four-byte big-endian
    length, then the payload), the socket path;
  - `daemon` — what the daemon does with each request, what it answers once
    the editor is done, how a client reads the answer;
  - `config` — default settings, the settings path, hotkey parsing;
  - `editor` — editor results, key bindings, themes, font size limits;
  - `clipboard` — the steps of pasting into the previous application, which
    put back everything the clipboard held;
  - `window` — choosing the frontmost application's window from the window list;
  - `launchd` — the launchd agent's property list, path and `launchctl` calls;
  - `cli` — the command line and what the program does for it;
  - `text`, `paths` — text and path operations with their meaning stated.
- `tests/` — tests of the library.
- `app/` — the program: clap, serde/JSON and TOML, the tokio socket server,
  AppKit windows and clipboard, Core Graphics keystrokes, global hotkeys.
