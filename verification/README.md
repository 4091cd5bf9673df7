# syncinput

A small desktop window whose text is shared with every browser on the local
network that opens the page it serves on port 5200. Pages talk to the server
over a WebSocket; the window talks to its page through short text messages.

The library (`src/`) is verified with Verus. It decides everything the
program does:

- `text`: character-level helpers with their specifications (prefixes,
  splitting, `u32` parsing, decimal notation, replacement).
- `json`: JSON string escaping and member lookup (through `serde_json`).
- `config`: the settings, their defaults, the settings messages from the
  page, and their JSON forms.
- `command`: reading the page's messages to the window.
- `shell`: the window and tray state machine (pinning, closing to the tray,
  the flashing tray icon, saving the window size).
- `hub`: the shared text and the connected pages; the messages they get.
- `web`: the page template, the server address and its QR code (through
  `qrcode`).
- `icon`: decoding the icon picture (through `image`).
- `probe`: waiting for the server's port.

`app/main.rs` is the program around it: the web server (`axum`, `tokio`),
the window and web view (`tao`, `wry`), the tray (`tray-icon`, `muda`), the
clipboard (`arboard`), the start-up shortcut (`mslnk`) and the files. It
reads the page template and the pictures from beside the executable.

`tests/` runs the library on concrete values.
